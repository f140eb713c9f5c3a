//! The extension blocks that follow the name of a layer. Each begins with the
//! container's tag; the list ends before the first four bytes that are not
//! that tag.

use crate::binary::{advance, u32_at, unicode_string_at, Binary};
use crate::code::{code_of, lemma_code_text, SIGNATURE};
use crate::decoded::{
    lemma_prepend_end, lemma_prepend_first, lemma_prepend_nothing, lemma_views_empty,
    lemma_views_push, prepend, views, Decoded,
};
use crate::error::FieldError;
use crate::text::{decoded_text, Encoding};
use vstd::prelude::*;

verus! {

/// The extension blocks of a layer, in their order.
pub type AdditionalLayerInformations = Vec<AdditionalLayerInformation>;

/// The key of the block that holds the name of the layer in Unicode: `luni`.
pub const LUNI: u32 = 0x6C75_6E69;

/// [`LUNI`] is the code of `luni`.
pub proof fn lemma_luni_code()
    ensures
        LUNI == code_of("luni"@),
{
    reveal_strlit("luni");
}

/// One extension block: its key, the length that it declares for its data,
/// and what was made of the data.
#[derive(Clone, Debug, PartialEq, Eq)]
pub struct AdditionalLayerInformation {
    pub key: String,
    pub data_length: u32,
    pub data: Data,
}

/// The data of an extension block.
#[derive(Clone, Debug, PartialEq, Eq)]
pub enum Data {
    /// The name of the layer in Unicode.
    Luni(Luni),
    /// Data of a block that is not decoded: they are skipped, and nothing is
    /// kept of them.
    NotImplemented(Option<()>),
}

/// The name of a layer in Unicode.
#[derive(Clone, Debug, PartialEq, Eq)]
pub struct Luni {
    /// The number of bytes that the name takes in the buffer, its count of
    /// four bytes included; `u32::MAX` if they are more than that.
    pub length: u32,
    pub text: String,
}

/// What a [`Luni`] holds.
pub struct LuniView {
    pub length: u32,
    pub text: Seq<char>,
}

/// What a [`Data`] holds.
pub enum DataView {
    Luni(LuniView),
    NotImplemented(Option<()>),
}

/// What an [`AdditionalLayerInformation`] holds.
pub struct AdditionalLayerInformationView {
    pub key: Seq<char>,
    pub data_length: u32,
    pub data: DataView,
}

impl AdditionalLayerInformationView {
    /// A block whose data are a Unicode name has the key `luni`.
    pub open spec fn wf(self) -> bool {
        self.data is Luni ==> self.key == "luni"@
    }
}

impl View for Luni {
    type V = LuniView;

    open spec fn view(&self) -> LuniView {
        LuniView { length: self.length, text: self.text@ }
    }
}

impl View for Data {
    type V = DataView;

    open spec fn view(&self) -> DataView {
        match *self {
            Data::Luni(luni) => DataView::Luni(luni@),
            Data::NotImplemented(nothing) => DataView::NotImplemented(nothing),
        }
    }
}

impl View for AdditionalLayerInformation {
    type V = AdditionalLayerInformationView;

    open spec fn view(&self) -> AdditionalLayerInformationView {
        AdditionalLayerInformationView {
            key: self.key@,
            data_length: self.data_length,
            data: self.data@,
        }
    }
}

/// A number of bytes as a `u32`, as far as that type reaches.
pub open spec fn stored_length(count: int) -> u32 {
    if count > u32::MAX {
        u32::MAX
    } else {
        count as u32
    }
}

/// The Unicode name at `pos`: a string with a count of four bytes before it,
/// and the number of bytes that both take.
pub open spec fn luni_at(bytes: Seq<u8>, pos: u64) -> Decoded<LuniView> {
    match unicode_string_at(bytes, pos) {
        Err(e) => Err(e),
        Ok((text, end)) => Ok((LuniView { length: stored_length(end - pos), text }, end)),
    }
}

/// The extension block whose key is at `pos`: a key of four bytes, a length
/// of four bytes, and the data. The key is kept as the text that its bytes
/// spell in UTF-8. Where its code is [`LUNI`] the data are a Unicode name,
/// which is decoded by its own count; the declared length is not held
/// against it. Under any other key the data are skipped by their declared
/// length, whether or not the buffer holds that many bytes.
pub open spec fn additional_layer_information_at(bytes: Seq<u8>, pos: u64) -> Decoded<
    AdditionalLayerInformationView,
> {
    match u32_at(bytes, pos) {
        Err(e) => Err(e),
        Ok((code, at1)) => match u32_at(bytes, at1) {
            Err(e) => Err(e),
            Ok((data_length, at2)) => {
                let key = decoded_text(Encoding::Utf8, bytes.subrange(pos as int, pos + 4));
                if code == LUNI {
                    match luni_at(bytes, at2) {
                        Err(e) => Err(e),
                        Ok((luni, end)) => Ok(
                            (
                                AdditionalLayerInformationView {
                                    key,
                                    data_length,
                                    data: DataView::Luni(luni),
                                },
                                end,
                            ),
                        ),
                    }
                } else {
                    Ok(
                        (
                            AdditionalLayerInformationView {
                                key,
                                data_length,
                                data: DataView::NotImplemented(None),
                            },
                            advance(at2, data_length as nat),
                        ),
                    )
                }
            },
        },
    }
}

/// The number of bytes of `bytes` from `pos` on.
pub open spec fn remaining(bytes: Seq<u8>, pos: u64) -> nat {
    if pos <= bytes.len() {
        (bytes.len() - pos) as nat
    } else {
        0
    }
}

/// The extension blocks from `pos` on. Four bytes are looked at: if they are
/// not [`SIGNATURE`], the list ends before them; if they are, a block follows
/// them, and the list goes on after it.
pub open spec fn additional_layer_informations_at(bytes: Seq<u8>, pos: u64) -> Decoded<
    Seq<AdditionalLayerInformationView>,
>
    decreases remaining(bytes, pos),
{
    match u32_at(bytes, pos) {
        Err(e) => Err(e),
        Ok((tag, start)) => if tag != SIGNATURE {
            Ok((Seq::empty(), pos))
        } else {
            match additional_layer_information_at(bytes, start) {
                Err(e) => Err(e),
                Ok((first, next)) => prepend(
                    seq![first],
                    additional_layer_informations_at(bytes, next),
                ),
            }
        },
    }
}

/// Where the four bytes at `pos` are in the buffer and are not the tag, there
/// are no extension blocks, and the empty list ends at `pos`: none of the
/// bytes that were looked at belongs to it.
pub proof fn lemma_no_blocks(bytes: Seq<u8>, pos: u64)
    requires
        u32_at(bytes, pos) matches Ok((tag, _)) && tag != SIGNATURE,
    ensures
        additional_layer_informations_at(bytes, pos) == Ok::<
            (Seq<AdditionalLayerInformationView>, u64),
            FieldError,
        >((Seq::empty(), pos)),
{
}

/// Where a Unicode name is decoded, it is what the bytes after the count
/// spell in UTF-16, two for each unit that the count announces, and its
/// length is that of the count and of those bytes together.
pub proof fn lemma_luni_extent(bytes: Seq<u8>, pos: u64)
    ensures
        luni_at(bytes, pos) matches Ok((luni, end)) ==> {
            let count = u32_at(bytes, pos).unwrap().0;
            &&& end == pos + 4 + 2 * count
            &&& luni.length == stored_length(4 + 2 * count)
            &&& luni.text == decoded_text(
                Encoding::Utf16,
                bytes.subrange(pos + 4, pos + 4 + 2 * count),
            )
        },
{
}

/// An extension block that is decoded is well-formed.
pub proof fn lemma_additional_layer_information_wf(bytes: Seq<u8>, pos: u64)
    ensures
        additional_layer_information_at(bytes, pos) matches Ok((block, _)) ==> block.wf(),
{
    if let Ok((code, _)) = u32_at(bytes, pos) {
        if code == LUNI {
            lemma_luni_code();
            reveal_strlit("luni");
            lemma_code_text(bytes, pos, "luni"@);
        }
    }
}

/// Extension blocks that are decoded are well-formed.
pub proof fn lemma_additional_layer_informations_wf(bytes: Seq<u8>, pos: u64)
    ensures
        additional_layer_informations_at(bytes, pos) matches Ok((blocks, _)) ==> forall|i: int|
            0 <= i < blocks.len() ==> (#[trigger] blocks[i]).wf(),
    decreases remaining(bytes, pos),
{
    if let Ok((tag, start)) = u32_at(bytes, pos) {
        if tag == SIGNATURE {
            lemma_additional_layer_information_wf(bytes, start);
            if let Ok((_, next)) = additional_layer_information_at(bytes, start) {
                lemma_additional_layer_informations_wf(bytes, next);
            }
        }
    }
}

/// Decodes the Unicode name at the cursor.
pub fn get_luni(binary: &mut Binary) -> (r: Result<Luni, FieldError>)
    ensures
        final(binary).after(*old(binary), r, luni_at(old(binary).buffer(), old(binary).offset())),
{
    let pos = binary.get_position();
    let text = binary.read_unicode_string()?;
    let consumed = binary.get_position() - pos;
    let length = if consumed > u32::MAX as u64 {
        u32::MAX
    } else {
        consumed as u32
    };
    Ok(Luni { length, text })
}

/// Decodes the extension block whose key is at the cursor.
pub fn get_additional_layer_information(binary: &mut Binary) -> (r: Result<
    AdditionalLayerInformation,
    FieldError,
>)
    ensures
        final(binary).after(
            *old(binary),
            r,
            additional_layer_information_at(old(binary).buffer(), old(binary).offset()),
        ),
        r matches Ok(block) ==> block@.wf(),
{
    proof {
        lemma_additional_layer_information_wf(binary.buffer(), binary.offset());
    }
    let code = binary.peek_u32()?;
    let key = binary.read_utf8(4)?;
    let data_length = binary.read_u32()?;
    let data = if code == LUNI {
        Data::Luni(get_luni(binary)?)
    } else {
        binary.increment_position(data_length as u64);
        Data::NotImplemented(None)
    };
    Ok(AdditionalLayerInformation { key, data_length, data })
}

/// Decodes the extension blocks from the cursor on. The cursor is left before
/// the four bytes that ended the list.
pub fn get_additional_layer_informations(binary: &mut Binary) -> (r: Result<
    AdditionalLayerInformations,
    FieldError,
>)
    ensures
        final(binary).after_list(
            *old(binary),
            r,
            additional_layer_informations_at(old(binary).buffer(), old(binary).offset()),
        ),
        r matches Ok(blocks) ==> forall|i: int|
            0 <= i < blocks.len() ==> (#[trigger] blocks[i])@.wf(),
{
    let ghost bytes = binary.buffer();
    proof {
        lemma_additional_layer_informations_wf(bytes, binary.offset());
    }
    let ghost whole = additional_layer_informations_at(bytes, binary.offset());
    let mut informations: Vec<AdditionalLayerInformation> = Vec::new();
    proof {
        lemma_prepend_nothing(whole);
        lemma_views_empty::<AdditionalLayerInformation>();
    }
    loop
        invariant
            binary.buffer() == bytes,
            bytes == old(binary).buffer(),
            whole == additional_layer_informations_at(bytes, old(binary).offset()),
            whole == prepend(
                views(informations@),
                additional_layer_informations_at(bytes, binary.offset()),
            ),
            whole matches Ok((blocks, _)) ==> forall|i: int|
                0 <= i < blocks.len() ==> (#[trigger] blocks[i]).wf(),
        decreases remaining(bytes, binary.offset()),
    {
        let ghost here = binary.offset();
        let tag = binary.peek_u32()?;
        if tag != SIGNATURE {
            proof {
                lemma_prepend_end(views(informations@), here);
                assert(whole is Ok && whole->Ok_0.0 == views(informations@));
                assert forall|i: int| 0 <= i < informations.len() implies (
                #[trigger] informations[i])@.wf() by {
                    assert(views(informations@)[i].wf());
                }
            }
            return Ok(informations);
        }
        binary.increment_position(4);
        let information = get_additional_layer_information(binary)?;
        proof {
            lemma_prepend_first(
                views(informations@),
                information@,
                additional_layer_informations_at(bytes, binary.offset()),
            );
            lemma_views_push(informations@, information);
        }
        informations.push(information);
    }
}

} // verus!
