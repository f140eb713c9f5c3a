//! The blending ranges of a layer.

use crate::binary::{u32_at, Binary};
use crate::decoded::{
    lemma_prepend_end, lemma_prepend_first, lemma_prepend_nothing, prepend, Decoded,
};
use crate::error::FieldError;
use vstd::prelude::*;

verus! {

/// The source and destination range of one channel, each as the four bytes
/// of its two black and two white values.
#[derive(Clone, Copy, Debug, PartialEq, Eq)]
pub struct ChannelSource {
    pub channel_source_range: u32,
    pub channel_destination_range: u32,
}

impl View for ChannelSource {
    type V = ChannelSource;

    open spec fn view(&self) -> ChannelSource {
        *self
    }
}

/// The blending ranges of a layer: their declared length in bytes, and one
/// pair of ranges for each eight bytes of it.
#[derive(Clone, Debug, PartialEq, Eq)]
pub struct LayerBlendingRangesData {
    pub length: u32,
    pub channel_sources: Vec<ChannelSource>,
}

/// What a [`LayerBlendingRangesData`] holds.
pub struct LayerBlendingRangesDataView {
    pub length: u32,
    pub channel_sources: Seq<ChannelSource>,
}

impl LayerBlendingRangesDataView {
    /// There is one pair of ranges for each eight bytes of the length.
    pub open spec fn wf(self) -> bool {
        self.channel_sources.len() == self.length / 8
    }
}

impl View for LayerBlendingRangesData {
    type V = LayerBlendingRangesDataView;

    open spec fn view(&self) -> LayerBlendingRangesDataView {
        LayerBlendingRangesDataView {
            length: self.length,
            channel_sources: self.channel_sources@,
        }
    }
}

/// The pair of ranges at `pos`: two numbers of four bytes.
pub open spec fn channel_source_at(bytes: Seq<u8>, pos: u64) -> Decoded<ChannelSource> {
    match u32_at(bytes, pos) {
        Err(e) => Err(e),
        Ok((channel_source_range, at1)) => match u32_at(bytes, at1) {
            Err(e) => Err(e),
            Ok((channel_destination_range, end)) => Ok(
                (ChannelSource { channel_source_range, channel_destination_range }, end),
            ),
        },
    }
}

/// The `count` pairs of ranges from `pos` on, one after the other.
pub open spec fn channel_sources_at(bytes: Seq<u8>, pos: u64, count: nat) -> Decoded<
    Seq<ChannelSource>,
>
    decreases count,
{
    if count == 0 {
        Ok((Seq::empty(), pos))
    } else {
        match channel_source_at(bytes, pos) {
            Err(e) => Err(e),
            Ok((first, next)) => prepend(
                seq![first],
                channel_sources_at(bytes, next, (count - 1) as nat),
            ),
        }
    }
}

/// The blending ranges at `pos`: a length of four bytes, then as many pairs
/// of ranges as there are whole groups of eight bytes in that length.
pub open spec fn layer_blending_ranges_data_at(bytes: Seq<u8>, pos: u64) -> Decoded<
    LayerBlendingRangesDataView,
> {
    match u32_at(bytes, pos) {
        Err(e) => Err(e),
        Ok((length, start)) => match channel_sources_at(bytes, start, (length / 8) as nat) {
            Err(e) => Err(e),
            Ok((channel_sources, end)) => Ok(
                (LayerBlendingRangesDataView { length, channel_sources }, end),
            ),
        },
    }
}

/// Where `count` pairs of ranges are decoded, the list has `count` pairs.
pub proof fn lemma_channel_sources_len(bytes: Seq<u8>, pos: u64, count: nat)
    ensures
        channel_sources_at(bytes, pos, count) matches Ok((sources, _)) ==> sources.len() == count,
    decreases count,
{
    if count > 0 {
        if let Ok((_, next)) = channel_source_at(bytes, pos) {
            lemma_channel_sources_len(bytes, next, (count - 1) as nat);
        }
    }
}

/// Blending ranges that are decoded are well-formed.
pub proof fn lemma_layer_blending_ranges_data_wf(bytes: Seq<u8>, pos: u64)
    ensures
        layer_blending_ranges_data_at(bytes, pos) matches Ok((ranges, _)) ==> ranges.wf(),
{
    if let Ok((length, start)) = u32_at(bytes, pos) {
        lemma_channel_sources_len(bytes, start, (length / 8) as nat);
    }
}

/// Decodes the pair of ranges at the cursor.
pub fn get_channel_source(binary: &mut Binary) -> (r: Result<ChannelSource, FieldError>)
    ensures
        final(binary).after(
            *old(binary),
            r,
            channel_source_at(old(binary).buffer(), old(binary).offset()),
        ),
{
    let channel_source_range = binary.read_u32()?;
    let channel_destination_range = binary.read_u32()?;
    Ok(ChannelSource { channel_source_range, channel_destination_range })
}

/// Decodes `count` pairs of ranges from the cursor on.
pub fn get_channel_sources(binary: &mut Binary, count: u32) -> (r: Result<
    Vec<ChannelSource>,
    FieldError,
>)
    ensures
        final(binary).after(
            *old(binary),
            r,
            channel_sources_at(old(binary).buffer(), old(binary).offset(), count as nat),
        ),
{
    let ghost bytes = binary.buffer();
    let ghost whole = channel_sources_at(bytes, binary.offset(), count as nat);
    let mut channel_sources: Vec<ChannelSource> = Vec::new();
    let mut i: u32 = 0;
    proof {
        lemma_prepend_nothing(whole);
    }
    while i < count
        invariant
            i <= count,
            binary.buffer() == bytes,
            bytes == old(binary).buffer(),
            whole == channel_sources_at(bytes, old(binary).offset(), count as nat),
            whole == prepend(
                channel_sources@,
                channel_sources_at(bytes, binary.offset(), (count - i) as nat),
            ),
        decreases count - i,
    {
        let channel_source = get_channel_source(binary)?;
        proof {
            lemma_prepend_first(
                channel_sources@,
                channel_source,
                channel_sources_at(bytes, binary.offset(), (count - i - 1) as nat),
            );
        }
        channel_sources.push(channel_source);
        i = i + 1;
    }
    proof {
        lemma_prepend_end(channel_sources@, binary.offset());
    }
    Ok(channel_sources)
}

/// Decodes the blending ranges at the cursor.
pub fn get_layer_blending_ranges_data(binary: &mut Binary) -> (r: Result<
    LayerBlendingRangesData,
    FieldError,
>)
    ensures
        final(binary).after(
            *old(binary),
            r,
            layer_blending_ranges_data_at(old(binary).buffer(), old(binary).offset()),
        ),
        r matches Ok(ranges) ==> ranges@.wf(),
{
    proof {
        lemma_layer_blending_ranges_data_wf(binary.buffer(), binary.offset());
    }
    let length = binary.read_u32()?;
    let channel_sources = get_channel_sources(binary, length / 8)?;
    Ok(LayerBlendingRangesData { length, channel_sources })
}

} // verus!
