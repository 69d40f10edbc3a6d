//! The metadata items of a container's primary image, and the choice of
//! the EXIF item among them.

use vstd::prelude::*;

verus! {

/// One metadata item of the primary image: a four-byte type code and the
/// item's raw bytes.
#[derive(Clone, Debug, PartialEq, Eq)]
pub struct MetadataItem {
    pub item_type: [u8; 4],
    pub raw_data: Vec<u8>,
}

/// The mathematical value of a [`MetadataItem`].
pub struct ItemModel {
    pub item_type: Seq<u8>,
    pub raw_data: Seq<u8>,
}

impl View for MetadataItem {
    type V = ItemModel;

    open spec fn view(&self) -> ItemModel {
        ItemModel { item_type: self.item_type@, raw_data: self.raw_data@ }
    }
}

/// The models of a sequence of items, in the same order.
pub open spec fn item_models(items: Seq<MetadataItem>) -> Seq<ItemModel> {
    Seq::new(items.len(), |i: int| items[i]@)
}

/// The type code of EXIF items: the bytes of `Exif`.
pub open spec fn exif_type_code() -> Seq<u8> {
    seq![0x45u8, 0x78u8, 0x69u8, 0x66u8]
}

impl ItemModel {
    /// Whether the item carries the EXIF type code.
    pub open spec fn is_exif(self) -> bool {
        self.item_type == exif_type_code()
    }
}

/// The index of the last item that carries the EXIF type code, if there is
/// one. Where several items carry it, the last one is the one that counts.
pub open spec fn last_exif_item(items: Seq<ItemModel>) -> Option<int>
    decreases items.len(),
{
    if items.len() == 0 {
        None
    } else if items.last().is_exif() {
        Some(items.len() - 1)
    } else {
        last_exif_item(items.drop_last())
    }
}

/// Whether some item carries the EXIF type code.
pub open spec fn has_exif_item(items: Seq<ItemModel>) -> bool {
    exists|i: int| 0 <= i < items.len() && (#[trigger] items[i]).is_exif()
}

/// The chosen item is an EXIF item with no EXIF item behind it, and none is
/// chosen only where there is no EXIF item at all.
pub proof fn last_exif_item_is_last(items: Seq<ItemModel>)
    ensures
        match last_exif_item(items) {
            Some(i) => 0 <= i < items.len() && items[i].is_exif() && forall|j: int|
                i < j < items.len() ==> !(#[trigger] items[j]).is_exif(),
            None => !has_exif_item(items),
        },
    decreases items.len(),
{
    if items.len() > 0 && !items.last().is_exif() {
        let front = items.drop_last();
        last_exif_item_is_last(front);
        match last_exif_item(front) {
            Some(i) => {
                assert forall|j: int| i < j < items.len() implies !(#[trigger] items[j]).is_exif()
                by {
                    if j < front.len() {
                        assert(front[j] == items[j]);
                    }
                }
            },
            None => {
                assert forall|j: int| 0 <= j < items.len() implies !(#[trigger] items[j]).is_exif()
                by {
                    if j < front.len() {
                        assert(front[j] == items[j]);
                    }
                }
            },
        }
    }
}

/// Compares two four-character codes by `four_cc::FourCC`'s `==`.
///
/// Trusted: `FourCC` is a wrapper around its four bytes with a derived
/// equality, so two codes are equal exactly when their bytes are.
#[verifier::external_body]
fn same_code(a: &[u8; 4], b: &[u8; 4]) -> (same: bool)
    ensures
        same == (a@ == b@),
{
    four_cc::FourCC(*a) == four_cc::FourCC(*b)
}

/// The type code of EXIF items.
pub fn exif_item_type() -> (code: [u8; 4])
    ensures
        code@ == exif_type_code(),
{
    let code: [u8; 4] = [0x45, 0x78, 0x69, 0x66];
    assert(code@ =~= exif_type_code());
    code
}

impl MetadataItem {
    /// Whether this item carries the EXIF type code.
    pub fn is_exif(&self) -> (exif: bool)
        ensures
            exif == self@.is_exif(),
    {
        let code: [u8; 4] = exif_item_type();
        same_code(&self.item_type, &code)
    }
}

/// Finds the EXIF item among the metadata items: the last one that carries
/// the EXIF type code.
pub fn find_exif_item(items: &Vec<MetadataItem>) -> (found: Option<usize>)
    ensures
        match found {
            Some(i) => i < items.len() && last_exif_item(item_models(items@)) == Some(i as int),
            None => last_exif_item(item_models(items@)) is None,
        },
{
    let ghost all = item_models(items@);
    let mut i: usize = items.len();
    assert(all.take(i as int) =~= all);
    while i > 0
        invariant
            i <= items.len(),
            all == item_models(items@),
            last_exif_item(all) == last_exif_item(all.take(i as int)),
        decreases i,
    {
        i -= 1;
        proof {
            assert(all.take(i + 1).drop_last() =~= all.take(i as int));
            assert(all.take(i + 1).last() == items[i as int]@);
        }
        if items[i].is_exif() {
            return Some(i);
        }
    }
    None
}

} // verus!
