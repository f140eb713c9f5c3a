//! The layer records of a document, and the count that announces them.

pub mod layer_record;

use self::layer_record::{
    get_layer_record, layer_record_at, lemma_layer_record_wf, LayerRecord, LayerRecordView,
};
use crate::binary::{i16_at, u32_at, Binary};
use crate::decoded::{
    lemma_prepend_end, lemma_prepend_first, lemma_prepend_nothing, lemma_views_empty,
    lemma_views_push, prepend, views, Decoded,
};
use crate::error::FieldError;
use vstd::prelude::*;

verus! {

/// The layers of a document.
#[derive(Clone, Debug, PartialEq, Eq)]
pub struct LayerInfo {
    /// The declared length of the layer information. Nothing is held against
    /// it.
    pub length: u32,
    /// The number of layers, as it is stored: it may be negative, and then its
    /// magnitude is the number.
    pub layer_count: i16,
    /// As many as the magnitude of `layer_count`.
    pub layer_records: Vec<LayerRecord>,
}

/// What a [`LayerInfo`] holds.
pub struct LayerInfoView {
    pub length: u32,
    pub layer_count: i16,
    pub layer_records: Seq<LayerRecordView>,
}

impl LayerInfoView {
    /// There are as many layer records as the magnitude of the count, and
    /// each is well-formed.
    pub open spec fn wf(self) -> bool {
        &&& self.layer_records.len() == magnitude(self.layer_count)
        &&& forall|i: int|
            0 <= i < self.layer_records.len() ==> (#[trigger] self.layer_records[i]).wf()
    }
}

impl View for LayerInfo {
    type V = LayerInfoView;

    open spec fn view(&self) -> LayerInfoView {
        LayerInfoView {
            length: self.length,
            layer_count: self.layer_count,
            layer_records: views(self.layer_records@),
        }
    }
}

/// The magnitude of a layer count.
pub open spec fn magnitude(layer_count: i16) -> nat {
    if layer_count < 0 {
        (-layer_count) as nat
    } else {
        layer_count as nat
    }
}

/// The `count` layer records from `pos` on, one after the other.
pub open spec fn layer_records_at(bytes: Seq<u8>, pos: u64, count: nat) -> Decoded<
    Seq<LayerRecordView>,
>
    decreases count,
{
    if count == 0 {
        Ok((Seq::empty(), pos))
    } else {
        match layer_record_at(bytes, pos) {
            Err(e) => Err(e),
            Ok((first, next)) => prepend(
                seq![first],
                layer_records_at(bytes, next, (count - 1) as nat),
            ),
        }
    }
}

/// The layer information at `pos`: a length of four bytes, a signed count of
/// two bytes, and as many layer records as the magnitude of the count.
pub open spec fn layer_info_at(bytes: Seq<u8>, pos: u64) -> Decoded<LayerInfoView> {
    match u32_at(bytes, pos) {
        Err(e) => Err(e),
        Ok((length, at1)) => match i16_at(bytes, at1) {
            Err(e) => Err(e),
            Ok((layer_count, start)) => match layer_records_at(
                bytes,
                start,
                magnitude(layer_count),
            ) {
                Err(e) => Err(e),
                Ok((layer_records, end)) => Ok(
                    (LayerInfoView { length, layer_count, layer_records }, end),
                ),
            },
        },
    }
}

/// Where `count` layer records are decoded, the list has `count` records,
/// each well-formed.
pub proof fn lemma_layer_records(bytes: Seq<u8>, pos: u64, count: nat)
    ensures
        layer_records_at(bytes, pos, count) matches Ok((records, _)) ==> {
            &&& records.len() == count
            &&& forall|i: int| 0 <= i < records.len() ==> (#[trigger] records[i]).wf()
        },
    decreases count,
{
    if count > 0 {
        lemma_layer_record_wf(bytes, pos);
        if let Ok((_, next)) = layer_record_at(bytes, pos) {
            lemma_layer_records(bytes, next, (count - 1) as nat);
        }
    }
}

/// Layer information that is decoded is well-formed: in particular it has as
/// many layer records as the magnitude of its count.
pub proof fn lemma_layer_info_wf(bytes: Seq<u8>, pos: u64)
    ensures
        layer_info_at(bytes, pos) matches Ok((layer_info, _)) ==> layer_info.wf(),
{
    if let Ok((_, at1)) = u32_at(bytes, pos) {
        if let Ok((layer_count, start)) = i16_at(bytes, at1) {
            lemma_layer_records(bytes, start, magnitude(layer_count));
        }
    }
}

/// Decodes `count` layer records from the cursor on.
pub fn get_layer_records(binary: &mut Binary, count: u16) -> (r: Result<
    Vec<LayerRecord>,
    FieldError,
>)
    ensures
        final(binary).after_list(
            *old(binary),
            r,
            layer_records_at(old(binary).buffer(), old(binary).offset(), count as nat),
        ),
{
    let ghost bytes = binary.buffer();
    let ghost whole = layer_records_at(bytes, binary.offset(), count as nat);
    let mut layer_records: Vec<LayerRecord> = Vec::new();
    let mut i: u16 = 0;
    proof {
        lemma_prepend_nothing(whole);
        lemma_views_empty::<LayerRecord>();
    }
    while i < count
        invariant
            i <= count,
            binary.buffer() == bytes,
            bytes == old(binary).buffer(),
            whole == layer_records_at(bytes, old(binary).offset(), count as nat),
            whole == prepend(
                views(layer_records@),
                layer_records_at(bytes, binary.offset(), (count - i) as nat),
            ),
        decreases count - i,
    {
        let layer_record = get_layer_record(binary)?;
        proof {
            lemma_prepend_first(
                views(layer_records@),
                layer_record@,
                layer_records_at(bytes, binary.offset(), (count - i - 1) as nat),
            );
            lemma_views_push(layer_records@, layer_record);
        }
        layer_records.push(layer_record);
        i = i + 1;
    }
    proof {
        lemma_prepend_end(views(layer_records@), binary.offset());
    }
    Ok(layer_records)
}

/// Decodes the layer information at the cursor. The cursor is left after the
/// last layer record, wherever the declared length would end.
pub fn get_layer_info(binary: &mut Binary) -> (r: Result<LayerInfo, FieldError>)
    ensures
        final(binary).after(
            *old(binary),
            r,
            layer_info_at(old(binary).buffer(), old(binary).offset()),
        ),
        r matches Ok(layer_info) ==> layer_info@.wf() && layer_info.layer_records.len()
            == magnitude(layer_info.layer_count),
{
    proof {
        lemma_layer_info_wf(binary.buffer(), binary.offset());
    }
    let length = binary.read_u32()?;
    let layer_count = binary.read_i16()?;
    let count: u16 = if layer_count < 0 {
        (-(layer_count as i32)) as u16
    } else {
        layer_count as u16
    };
    let layer_records = get_layer_records(binary, count)?;
    Ok(LayerInfo { length, layer_count, layer_records })
}

} // verus!
