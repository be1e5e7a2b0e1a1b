use crate::error::{SplitError, SplitErrorView};
use vstd::prelude::*;

verus! {

/// The characters that count as white space: the code points with the
/// Unicode property `White_Space`.
pub open spec fn is_whitespace(c: char) -> bool {
    let code = c as u32;
    ||| 0x09 <= code <= 0x0d
    ||| code == 0x20
    ||| code == 0x85
    ||| code == 0xa0
    ||| code == 0x1680
    ||| 0x2000 <= code <= 0x200a
    ||| code == 0x2028
    ||| code == 0x2029
    ||| code == 0x202f
    ||| code == 0x205f
    ||| code == 0x3000
}

/// `text` without the white space at its end.
pub open spec fn trim_end(text: Seq<char>) -> Seq<char>
    decreases text.len(),
{
    if text.len() > 0 && is_whitespace(text.last()) {
        trim_end(text.drop_last())
    } else {
        text
    }
}

/// `text` without the white space at its start.
pub open spec fn trim_start(text: Seq<char>) -> Seq<char>
    decreases text.len(),
{
    if text.len() > 0 && is_whitespace(text.first()) {
        trim_start(text.drop_first())
    } else {
        text
    }
}

/// `text` without the white space at either end.
pub open spec fn trimmed(text: Seq<char>) -> Seq<char> {
    trim_start(trim_end(text))
}

/// What follows the last `:` of `text`; all of `text` if it holds none.
pub open spec fn final_segment(text: Seq<char>) -> Seq<char>
    decreases text.len(),
{
    if text.len() == 0 || text.last() == ':' {
        Seq::empty()
    } else {
        final_segment(text.drop_last()).push(text.last())
    }
}

/// The key that the lookup printed: what follows the last `:` of its
/// output, without the white space around it. `None` if there is no `:`.
pub open spec fn activation_bytes_of(output: Seq<char>) -> Option<Seq<char>> {
    if output.contains(':') {
        Some(trimmed(final_segment(output)))
    } else {
        None
    }
}

/// Whether `at` is the place of the last `:` in `text`.
pub open spec fn is_last_colon(text: Seq<char>, at: int) -> bool {
    &&& 0 <= at < text.len()
    &&& text[at] == ':'
    &&& forall|later: int| at < later < text.len() ==> text[later] != ':'
}

/// The arguments that make `sh` run the lookup for `hash` inside the table
/// directory.
pub open spec fn lookup_arguments_text(hash: Seq<char>) -> Seq<Seq<char>> {
    seq!["-c"@, "cd ./rcrack && ./rcrack . -h "@ + hash]
}

/// Builds the arguments with which `sh` looks up the key for `hash`.
pub fn lookup_arguments(hash: &str) -> (arguments: Vec<String>)
    ensures
        arguments.deep_view() == lookup_arguments_text(hash@),
{
    let mut line = String::from_str("cd ./rcrack && ./rcrack . -h ");
    line.append(hash);
    let mut arguments: Vec<String> = Vec::new();
    arguments.push(String::from_str("-c"));
    arguments.push(line);
    arguments
}

fn whitespace(c: char) -> (yes: bool)
    ensures
        yes == is_whitespace(c),
{
    let code = c as u32;
    (0x09 <= code && code <= 0x0d) || code == 0x20 || code == 0x85 || code == 0xa0 || code
        == 0x1680 || (0x2000 <= code && code <= 0x200a) || code == 0x2028 || code == 0x2029
        || code == 0x202f || code == 0x205f || code == 0x3000
}

/// Reads the key out of what the lookup printed. The key is what follows
/// the last `:`, without the white space around it; output without any `:`
/// holds no key.
pub fn extract_activation_bytes(rcrack_output: &str) -> (key: Result<String, SplitError>)
    ensures
        match key {
            Ok(text) => activation_bytes_of(rcrack_output@) == Some(text@),
            Err(error) => activation_bytes_of(rcrack_output@) is None && error@
                == SplitErrorView::ParseError,
        },
{
    let total = rcrack_output.unicode_len();
    let mut colon: Option<usize> = None;
    let mut start: usize = 0;
    let mut end: usize = 0;
    let mut seen: usize = 0;
    for c in chars: rcrack_output.chars()
        invariant
            chars.seq() == rcrack_output@,
            total == rcrack_output@.len(),
            seen == chars.index(),
            colon is None ==> forall|i: int| 0 <= i < seen ==> rcrack_output@[i] != ':',
            colon matches Some(at) ==> {
                &&& at < start <= end <= seen
                &&& rcrack_output@[at as int] == ':'
                &&& forall|i: int| at < i < seen ==> rcrack_output@[i] != ':'
                &&& forall|i: int| at < i < start ==> is_whitespace(rcrack_output@[i])
                &&& forall|i: int| end <= i < seen ==> is_whitespace(rcrack_output@[i])
                &&& start < end ==> !is_whitespace(rcrack_output@[start as int]) && !is_whitespace(
                    rcrack_output@[end - 1],
                )
            },
    {
        if c == ':' {
            colon = Some(seen);
            start = seen + 1;
            end = seen + 1;
        } else if colon.is_some() && !whitespace(c) {
            if start == end {
                start = seen;
            }
            end = seen + 1;
        }
        seen = seen + 1;
    }
    match colon {
        None => Err(SplitError::ParseError),
        Some(at) => {
            proof {
                let segment = rcrack_output@.skip(at + 1);
                lemma_final_segment_after(rcrack_output@, at as int);
                lemma_trimmed_at(segment, start - at - 1, end - at - 1);
                assert(segment.subrange(start - at - 1, end - at - 1) =~= rcrack_output@.subrange(
                    start as int,
                    end as int,
                ));
            }
            Ok(String::from_str(rcrack_output.substring_char(start, end)))
        },
    }
}

/// The key is found behind the last `:` of the output, and has no white
/// space at either end.
pub proof fn lemma_activation_bytes(output: Seq<char>)
    requires
        output.contains(':'),
    ensures
        exists|at: int|
            is_last_colon(output, at) && activation_bytes_of(output) == Some(
                trimmed(output.skip(at + 1)),
            ),
        ({
            let key = activation_bytes_of(output)->0;
            key.len() > 0 ==> !is_whitespace(key.first()) && !is_whitespace(key.last())
        }),
{
    lemma_last_colon_exists(output);
    let at = choose|at: int| is_last_colon(output, at);
    lemma_final_segment_after(output, at);
    lemma_trimmed_clean(output.skip(at + 1));
}

proof fn lemma_last_colon_exists(text: Seq<char>)
    requires
        text.contains(':'),
    ensures
        exists|at: int| is_last_colon(text, at),
    decreases text.len(),
{
    if text.last() == ':' {
        assert(is_last_colon(text, text.len() - 1));
    } else {
        let shorter = text.drop_last();
        let i = choose|i: int| 0 <= i < text.len() && text[i] == ':';
        assert(shorter[i] == ':');
        lemma_last_colon_exists(shorter);
        let at = choose|at: int| is_last_colon(shorter, at);
        assert forall|later: int| at < later < text.len() implies text[later] != ':' by {
            if later < shorter.len() {
                assert(shorter[later] != ':');
            }
        }
        assert(is_last_colon(text, at));
    }
}

proof fn lemma_final_segment_after(text: Seq<char>, at: int)
    requires
        is_last_colon(text, at),
    ensures
        final_segment(text) == text.skip(at + 1),
    decreases text.len(),
{
    if text.last() != ':' {
        let shorter = text.drop_last();
        lemma_final_segment_after(shorter, at);
    }
}

proof fn lemma_trim_end_at(text: Seq<char>, end: int)
    requires
        0 <= end <= text.len(),
        forall|i: int| end <= i < text.len() ==> is_whitespace(text[i]),
        end > 0 ==> !is_whitespace(text[end - 1]),
    ensures
        trim_end(text) == text.take(end),
    decreases text.len(),
{
    if end < text.len() {
        lemma_trim_end_at(text.drop_last(), end);
    }
}

proof fn lemma_trim_start_at(text: Seq<char>, start: int)
    requires
        0 <= start <= text.len(),
        forall|i: int| 0 <= i < start ==> is_whitespace(text[i]),
        start < text.len() ==> !is_whitespace(text[start]),
    ensures
        trim_start(text) == text.skip(start),
    decreases text.len(),
{
    if start > 0 {
        lemma_trim_start_at(text.drop_first(), start - 1);
    }
}

/// `trimmed` cuts `text` down to the stretch from its first to its last
/// character that is no white space.
proof fn lemma_trimmed_at(text: Seq<char>, start: int, end: int)
    requires
        0 <= start <= end <= text.len(),
        forall|i: int| 0 <= i < start ==> is_whitespace(text[i]),
        forall|i: int| end <= i < text.len() ==> is_whitespace(text[i]),
        start < end ==> !is_whitespace(text[start]) && !is_whitespace(text[end - 1]),
    ensures
        trimmed(text) == text.subrange(start, end),
{
    if start < end {
        lemma_trim_end_at(text, end);
        lemma_trim_start_at(text.take(end), start);
    } else {
        lemma_trim_end_at(text, 0);
    }
}

proof fn lemma_trim_end_clean(text: Seq<char>)
    ensures
        trim_end(text).len() > 0 ==> !is_whitespace(trim_end(text).last()),
        trim_end(text).len() <= text.len(),
        trim_end(text) == text.take(trim_end(text).len() as int),
    decreases text.len(),
{
    if text.len() > 0 && is_whitespace(text.last()) {
        lemma_trim_end_clean(text.drop_last());
    }
}

proof fn lemma_trim_start_clean(text: Seq<char>)
    ensures
        trim_start(text).len() > 0 ==> !is_whitespace(trim_start(text).first()),
        trim_start(text).len() <= text.len(),
        trim_start(text) == text.skip(text.len() - trim_start(text).len()),
    decreases text.len(),
{
    if text.len() > 0 && is_whitespace(text.first()) {
        lemma_trim_start_clean(text.drop_first());
    }
}

proof fn lemma_trimmed_clean(text: Seq<char>)
    ensures
        trimmed(text).len() > 0 ==> !is_whitespace(trimmed(text).first()) && !is_whitespace(
            trimmed(text).last(),
        ),
{
    let inner = trim_end(text);
    lemma_trim_end_clean(text);
    lemma_trim_start_clean(inner);
}

} // verus!
