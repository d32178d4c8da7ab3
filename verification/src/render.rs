//! The renderer: the fixed-width two-column layout, with an optional
//! ASCII-art banner block ahead of the report.

use vstd::prelude::*;
use vstd::string::{StrSliceExecFns, StringExecFns};
use crate::report::{Field, Report};

verus! {

/// The label column width of the two-column layout, in characters.
pub const LABEL_WIDTH: usize = 20;

/// The value column width of the two-column layout, in characters.
pub const VALUE_WIDTH: usize = 30;

/// `n` spaces.
pub open spec fn spaces(n: nat) -> Seq<char>
    decreases n,
{
    if n == 0 {
        Seq::empty()
    } else {
        spaces((n - 1) as nat).push(' ')
    }
}

/// `s` padded on the right with spaces to at least `w` characters; a
/// longer `s` is kept whole, never truncated.
pub open spec fn pad_spec(s: Seq<char>, w: nat) -> Seq<char> {
    if s.len() >= w {
        s
    } else {
        s + spaces((w - s.len()) as nat)
    }
}

/// Pads a string on the right with spaces to at least `width` characters.
fn pad_right(s: &str, width: usize) -> (r: String)
    ensures
        r@ == pad_spec(s@, width as nat),
{
    let mut r = String::from_str(s);
    let n = s.unicode_len();
    if n >= width {
        return r;
    }
    proof {
        assert(s@ + spaces(0) =~= s@);
    }
    let mut i = n;
    while i < width
        invariant
            n == s@.len(),
            n <= i <= width,
            r@ == s@ + spaces((i - n) as nat),
        decreases width - i,
    {
        r.append(" ");
        proof {
            reveal_strlit(" ");
            assert(" "@ =~= seq![' ']);
            assert((s@ + spaces((i - n) as nat)) + " "@ =~= s@ + spaces((i + 1 - n) as nat));
        }
        i += 1;
    }
    r
}

/// One line of the two-column layout: the padded label, `: `, and the
/// padded value.
pub open spec fn line_spec(label: Seq<char>, value: Seq<char>) -> Seq<char> {
    pad_spec(label, LABEL_WIDTH as nat) + ": "@ + pad_spec(value, VALUE_WIDTH as nat)
}

/// The two pieces of one line, the padded label apart from `: ` and the
/// padded value, so that a caller can style the label before printing.
pub fn render_parts(field: &Field) -> (r: (String, String))
    ensures
        r.0@ == pad_spec(field.label@, LABEL_WIDTH as nat),
        r.1@ == ": "@ + pad_spec(field.value@, VALUE_WIDTH as nat),
        r.0@ + r.1@ == line_spec(field.label@, field.value@),
{
    let left = pad_right(field.label.as_str(), LABEL_WIDTH);
    let mut rest = String::from_str(": ");
    let value = pad_right(field.value.as_str(), VALUE_WIDTH);
    rest.append(value.as_str());
    proof {
        assert(left@ + (": "@ + pad_spec(field.value@, VALUE_WIDTH as nat)) =~= line_spec(
            field.label@,
            field.value@,
        ));
    }
    (left, rest)
}

/// One full line of the two-column layout.
pub fn render_line(label: &str, value: &str) -> (r: String)
    ensures
        r@ == line_spec(label@, value@),
{
    let mut r = pad_right(label, LABEL_WIDTH);
    r.append(": ");
    let value_col = pad_right(value, VALUE_WIDTH);
    r.append(value_col.as_str());
    proof {
        assert(r@ =~= line_spec(label@, value@));
    }
    r
}

/// The report body: each field on its own line, each line ended with a
/// newline.
pub open spec fn lines_spec(fields: Seq<(Seq<char>, Seq<char>)>) -> Seq<char>
    decreases fields.len(),
{
    if fields.len() == 0 {
        Seq::empty()
    } else {
        lines_spec(fields.drop_last()) + line_spec(fields.last().0, fields.last().1) + "\n"@
    }
}

/// The banner block: a supplied banner follows one further blank line; a
/// banner whose glyph rendering failed upstream becomes a literal notice.
pub open spec fn banner_spec(banner: Option<Seq<char>>) -> Seq<char> {
    match banner {
        Some(art) => "\n"@ + art + "\n"@,
        None => "Failed to generate ASCII art\n"@,
    }
}

/// The view of an optional banner string.
pub open spec fn banner_view(banner: Option<&str>) -> Option<Seq<char>> {
    match banner {
        Some(art) => Some(art@),
        None => None,
    }
}

/// The whole rendered output: a blank line, the banner block, the
/// two-column report lines, and a closing blank line.
pub open spec fn render_spec(banner: Option<Seq<char>>, fields: Seq<(Seq<char>, Seq<char>)>) -> Seq<
    char,
> {
    "\n\n"@ + banner_spec(banner) + lines_spec(fields) + "\n\n"@
}

/// Renders the banner block and the whole report as one string, in the
/// fixed-width two-column layout.
pub fn render_report(banner: Option<&str>, report: &Report) -> (r: String)
    ensures
        r@ == render_spec(banner_view(banner), report@),
{
    let mut out = String::from_str("\n\n");
    match banner {
        Some(art) => {
            out.append("\n");
            out.append(art);
            out.append("\n");
        },
        None => {
            out.append("Failed to generate ASCII art\n");
        },
    }
    proof {
        assert(out@ =~= "\n\n"@ + banner_spec(banner_view(banner)));
    }
    let ghost head = out@;
    proof {
        assert(head + lines_spec(report@.take(0)) =~= head);
    }
    let mut i: usize = 0;
    while i < report.fields.len()
        invariant
            i <= report.fields.len(),
            report@.len() == report.fields.len(),
            out@ == head + lines_spec(report@.take(i as int)),
        decreases report.fields.len() - i,
    {
        let (left, rest) = render_parts(&report.fields[i]);
        out.append(left.as_str());
        out.append(rest.as_str());
        out.append("\n");
        proof {
            assert(report@.take(i + 1).drop_last() =~= report@.take(i as int));
            assert(report@.take(i + 1).last() == report@[i as int]);
            assert(report@[i as int] == report.fields@[i as int]@);
            assert(out@ =~= head + lines_spec(report@.take(i + 1)));
        }
        i += 1;
    }
    proof {
        assert(report@.take(report.fields.len() as int) =~= report@);
    }
    out.append("\n\n");
    proof {
        assert(out@ =~= render_spec(banner_view(banner), report@));
    }
    out
}

} // verus!
