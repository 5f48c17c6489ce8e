use vstd::prelude::*;
use vstd::utf8::*;
use vstd::string::*;

verus! {

broadcast use vstd::utf8::decode_utf8_encode_utf8, vstd::utf8::encode_utf8_decode_utf8;

/// One run of the external proving tool: the binary and its arguments.
#[derive(Debug, Clone)]
pub struct ToolCommand {
    pub program: String,
    pub args: Vec<String>,
}

/// What a launched run of the tool left behind.
#[derive(Debug, Clone)]
pub struct ToolOutput {
    pub stdout: Vec<u8>,
    pub stderr: Vec<u8>,
    /// The exit code, or `None` where a signal ended the process.
    pub status: Option<i32>,
}

/// The arguments of a command as character sequences.
pub open spec fn args_view(args: Seq<String>) -> Seq<Seq<char>> {
    args.map_values(|a: String| a@)
}

/// The text shown for tool output that is not valid UTF-8.
pub open spec fn undecodable_text() -> Seq<char> {
    "Error"@
}

/// The tool's output read as text: the characters that the bytes encode, or
/// the placeholder where they are not UTF-8.
pub open spec fn output_text(bytes: Seq<u8>) -> Seq<char> {
    if valid_utf8(bytes) {
        decode_utf8(bytes)
    } else {
        undecodable_text()
    }
}

/// The phrase by which the tool reports a proof that checks.
pub const VERIFIED_MARKER: &'static str = "verified: true";

/// Whether `needle` occurs as a contiguous run inside `hay`.
pub open spec fn occurs_in(hay: Seq<u8>, needle: Seq<u8>) -> bool {
    exists|i: int| 0 <= i && i + needle.len() <= hay.len()
        && #[trigger] hay.subrange(i, i + needle.len()) == needle
}

/// The verdict for a verification run: the output is text, and that text
/// contains the marker phrase.
pub open spec fn verified(stdout: Seq<u8>) -> bool {
    valid_utf8(stdout) && occurs_in(stdout, encode_utf8(VERIFIED_MARKER@))
}

/// Relies on `std::str::from_utf8`: it succeeds exactly on valid UTF-8, and
/// the string it returns holds those same bytes.
#[verifier::external_body]
fn utf8_text(bytes: &[u8]) -> (r: Option<String>)
    ensures
        r is Some <==> valid_utf8(bytes@),
        r matches Some(s) ==> encode_utf8(s@) == bytes@,
{
    std::str::from_utf8(bytes).ok().map(|s| s.to_string())
}

/// Decodes tool output, replacing output that is not UTF-8 by a placeholder
/// rather than failing.
pub fn decode_output(bytes: &Vec<u8>) -> (r: String)
    ensures
        r@ == output_text(bytes@),
{
    match utf8_text(bytes.as_slice()) {
        Some(s) => s,
        None => String::from_str("Error"),
    }
}

/// Whether the bytes of `needle` occur contiguously in `hay`.
pub fn contains_bytes(hay: &[u8], needle: &[u8]) -> (r: bool)
    ensures
        r == occurs_in(hay@, needle@),
{
    if needle.len() > hay.len() {
        return false;
    }
    let n: usize = hay.len();
    let last: usize = n - needle.len();
    let mut i: usize = 0;
    loop
        invariant
            last == hay@.len() - needle@.len(),
            needle@.len() <= hay@.len(),
            hay@.len() == n,
            i <= last,
            forall|k: int| 0 <= k < i ==> #[trigger] hay@.subrange(k, k + needle@.len()) != needle@,
        decreases last - i,
    {
        let mut j: usize = 0;
        let mut same = true;
        while j < needle.len()
            invariant
                i <= last,
                last == hay@.len() - needle@.len(),
                needle@.len() <= hay@.len(),
                hay@.len() == n,
                j <= needle@.len(),
                same == (forall|t: int| 0 <= t < j ==> hay@[i + t] == needle@[t]),
            decreases needle@.len() - j,
        {
            if hay[i + j] != needle[j] {
                same = false;
            }
            j = j + 1;
        }
        if same {
            assert(hay@.subrange(i as int, i + needle@.len()) =~= needle@);
            return true;
        }
        assert(hay@.subrange(i as int, i + needle@.len()) != needle@) by {
            let t = choose|t: int| 0 <= t < j && hay@[i + t] != needle@[t];
            assert(hay@.subrange(i as int, i + needle@.len())[t] == hay@[i + t]);
        }
        if i == last {
            return false;
        }
        i = i + 1;
    }
}

/// Reads the verdict of a verification run off its standard output.
pub fn verdict(stdout: &Vec<u8>) -> (r: bool)
    ensures
        r == verified(stdout@),
{
    let text = utf8_text(stdout.as_slice());
    match text {
        Some(_) => contains_bytes(stdout.as_slice(), VERIFIED_MARKER.as_bytes()),
        None => false,
    }
}

} // verus!
