use vstd::prelude::*;
use vstd::string::*;

verus! {

/// The text that `String::from_utf8_lossy` makes of some bytes.
pub uninterp spec fn utf8_lossy(b: Seq<u8>) -> Seq<char>;

/// Relies on std's String::from_utf8_lossy: the bytes as text, with each invalid
/// sequence replaced; the result depends on the bytes alone.
#[verifier::external_body]
fn decode_lossy(b: &Vec<u8>) -> (r: String)
    ensures
        r@ == utf8_lossy(b@),
{
    String::from_utf8_lossy(b.as_slice()).into_owned()
}

/// One line that the patch serialiser emits: its origin marker and its bytes.
#[derive(Clone, Debug)]
pub struct PatchLine {
    pub origin: String,
    pub content: Vec<u8>,
}

/// Appends one emitted line to those collected so far; always asks for more.
pub fn record_line(lines: &mut Vec<PatchLine>, origin: String, content: Vec<u8>) -> (r: bool)
    ensures
        r,
        final(lines)@ == old(lines)@.push(PatchLine { origin, content }),
{
    lines.push(PatchLine { origin, content });
    true
}

/// One rendered line: the origin marker, a space, then the line's text.
pub open spec fn line_text(origin: Seq<char>, text: Seq<char>) -> Seq<char> {
    origin + " "@ + text
}

/// The rendered patch: every line in emission order, one after the other.
pub open spec fn patch_text(lines: Seq<PatchLine>) -> Seq<char>
    decreases lines.len(),
{
    if lines.len() == 0 {
        Seq::empty()
    } else {
        patch_text(lines.drop_last()) + line_text(lines.last().origin@, utf8_lossy(lines.last().content@))
    }
}

/// Renders one patch line whose bytes are already decoded.
pub fn format_patch_line(origin: &str, text: &str) -> (r: String)
    ensures
        r@ == line_text(origin@, text@),
{
    let mut out = String::from_str(origin);
    out.append(" ");
    out.append(text);
    out
}

/// Renders the lines of a patch as the text that the diff verb returns.
pub fn render_patch(lines: &Vec<PatchLine>) -> (r: String)
    ensures
        r@ == patch_text(lines@),
{
    let mut out = String::new();
    let mut i: usize = 0;
    while i < lines.len()
        invariant
            i <= lines@.len(),
            out@ == patch_text(lines@.take(i as int)),
        decreases lines@.len() - i,
    {
        assert(lines@.take(i as int + 1).drop_last() =~= lines@.take(i as int));
        let text = decode_lossy(&lines[i].content);
        let line = format_patch_line(lines[i].origin.as_str(), text.as_str());
        out.append(line.as_str());
        assert(out@ =~= patch_text(lines@.take(i as int + 1)));
        i += 1;
    }
    assert(lines@.take(lines@.len() as int) =~= lines@);
    out
}

} // verus!
