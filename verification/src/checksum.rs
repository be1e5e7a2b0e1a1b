use crate::error::{SplitError, SplitErrorView};
use hex_slice::AsHex;
use vstd::prelude::*;
use vstd::slice::slice_subrange;

verus! {

/// Where the checksum window starts in the source file.
pub const FILE_CHECKSUM_START: usize = 653;

/// How many bytes the checksum window holds.
pub const CHECKSUM_BUFFER_SIZE: usize = 20;

/// The lowercase hexadecimal digit of a value below sixteen.
pub open spec fn hex_digit(value: int) -> char {
    seq!['0', '1', '2', '3', '4', '5', '6', '7', '8', '9', 'a', 'b', 'c', 'd', 'e', 'f'][value]
}

/// Whether `c` is a digit or one of the letters `a` to `f`.
pub open spec fn is_lower_hex(c: char) -> bool {
    ('0' <= c && c <= '9') || ('a' <= c && c <= 'f')
}

/// Two lowercase hexadecimal digits for every byte, the high half first,
/// with nothing between the bytes.
pub open spec fn hex_text(bytes: Seq<u8>) -> Seq<char> {
    Seq::new(
        2 * bytes.len(),
        |i: int|
            if i % 2 == 0 {
                hex_digit(bytes[i / 2] as int / 16)
            } else {
                hex_digit(bytes[i / 2] as int % 16)
            },
    )
}

/// The window of the source file that holds the checksum, if `data`, read
/// from the start of the file, reaches that far.
pub open spec fn checksum_window(data: Seq<u8>) -> Option<Seq<u8>> {
    if data.len() >= FILE_CHECKSUM_START + CHECKSUM_BUFFER_SIZE {
        Some(
            data.subrange(
                FILE_CHECKSUM_START as int,
                FILE_CHECKSUM_START + CHECKSUM_BUFFER_SIZE,
            ),
        )
    } else {
        None
    }
}

/// Formats `bytes.plain_hex(false)` of `hex_slice::AsHex` with `{:02x}`.
/// `plain_hex(false)` puts nothing between the elements and hands each of
/// them to `LowerHex` with the width and fill of the format, so that every
/// byte comes out as exactly two lowercase digits, the high half first.
/// The contract is taken on trust; nothing of it is proved here.
#[verifier::external_body]
fn plain_hex(bytes: &[u8]) -> (text: String)
    ensures
        text@ == hex_text(bytes@),
{
    format!("{:02x}", bytes.plain_hex(false))
}

/// Writes a checksum window in lowercase hexadecimal.
pub fn render_checksum(window: &[u8]) -> (text: String)
    ensures
        text@ == hex_text(window@),
        text@.len() == 2 * window@.len(),
        forall|i: int| 0 <= i < text@.len() ==> is_lower_hex(#[trigger] text@[i]),
{
    let text = plain_hex(window);
    proof {
        lemma_hex_text_is_lower_hex(window@);
    }
    text
}

/// Reads the checksum out of `data`, the bytes of the source file from its
/// start: the window of `CHECKSUM_BUFFER_SIZE` bytes at
/// `FILE_CHECKSUM_START`, in lowercase hexadecimal. A file that ends
/// before the end of the window cannot be read that far.
pub fn extract_checksum(data: &[u8]) -> (checksum: Result<String, SplitError>)
    ensures
        match checksum {
            Ok(text) => checksum_window(data@) matches Some(window) && text@ == hex_text(window),
            Err(error) => checksum_window(data@) is None && error@ == SplitErrorView::IoError,
        },
{
    if data.len() < FILE_CHECKSUM_START + CHECKSUM_BUFFER_SIZE {
        return Err(SplitError::IoError);
    }
    let window = slice_subrange(
        data,
        FILE_CHECKSUM_START,
        FILE_CHECKSUM_START + CHECKSUM_BUFFER_SIZE,
    );
    Ok(render_checksum(window))
}

/// The text of a window has two characters for each byte, all of them
/// lowercase hexadecimal digits: forty for a window of twenty bytes.
pub proof fn lemma_hex_text_is_lower_hex(bytes: Seq<u8>)
    ensures
        hex_text(bytes).len() == 2 * bytes.len(),
        bytes.len() == CHECKSUM_BUFFER_SIZE ==> hex_text(bytes).len() == 40,
        forall|i: int|
            0 <= i < hex_text(bytes).len() ==> is_lower_hex(#[trigger] hex_text(bytes)[i]),
{
    assert forall|i: int| 0 <= i < hex_text(bytes).len() implies is_lower_hex(
        #[trigger] hex_text(bytes)[i],
    ) by {
        let byte = bytes[i / 2] as int;
        lemma_hex_digit_is_lower_hex(byte / 16);
        lemma_hex_digit_is_lower_hex(byte % 16);
    }
}

proof fn lemma_hex_digit_is_lower_hex(value: int)
    requires
        0 <= value < 16,
    ensures
        is_lower_hex(hex_digit(value)),
{
}

/// The text depends on the bytes of the window and on nothing else: the
/// same window is always written the same way, and windows that differ are
/// written differently.
pub proof fn lemma_hex_text_tells_windows_apart(first: Seq<u8>, second: Seq<u8>)
    ensures
        first == second <==> hex_text(first) == hex_text(second),
{
    if hex_text(first) == hex_text(second) {
        lemma_same_text_same_window(first, second);
    }
}

proof fn lemma_same_text_same_window(first: Seq<u8>, second: Seq<u8>)
    requires
        hex_text(first) == hex_text(second),
    ensures
        first == second,
{
    assert(hex_text(second).len() == 2 * second.len());
    assert forall|i: int| 0 <= i < first.len() implies first[i] == second[i] by {
        let a = first[i] as int;
        let b = second[i] as int;
        assert(hex_text(second)[2 * i] == hex_digit(b / 16));
        assert(hex_text(second)[2 * i + 1] == hex_digit(b % 16));
        lemma_hex_digit_tells_values_apart(a / 16, b / 16);
        lemma_hex_digit_tells_values_apart(a % 16, b % 16);
    }
}

proof fn lemma_hex_digit_tells_values_apart(first: int, second: int)
    requires
        0 <= first < 16,
        0 <= second < 16,
        hex_digit(first) == hex_digit(second),
    ensures
        first == second,
{
}

} // verus!
