//! Rendering a profile record into the text block shown to the user.
//!
//! The block is fixed-order: an identity header, an underline, then one
//! `Label: value` line per field. Every absent optional field renders as
//! its type's zero value: the empty string for text, `0` for counts. The
//! star total line appears only when a total was computed. The block is
//! plain text; any terminal styling is layered on by the caller.

use crate::numbers::dec_chars;
use crate::numbers::u64_to_string;
use crate::record::ProfileRecord;
use vstd::prelude::*;
use vstd::string::StrSliceExecFns;
use vstd::string::StringExecFns;

verus! {

/// The text an optional text field renders as: its value, or empty.
pub open spec fn opt_text(o: Option<String>) -> Seq<char> {
    match o {
        Option::Some(s) => s@,
        Option::None => Seq::empty(),
    }
}

/// The number an optional counter renders as: its value, or zero.
pub open spec fn opt_count(o: Option<u64>) -> u64 {
    match o {
        Option::Some(n) => n,
        Option::None => 0,
    }
}

/// One `Label: value` line of the block.
pub open spec fn line(label: Seq<char>, value: Seq<char>) -> Seq<char> {
    label + ": "@ + value + "\n"@
}

/// The line for an optional text field.
pub open spec fn text_line(label: Seq<char>, o: Option<String>) -> Seq<char> {
    line(label, opt_text(o))
}

/// The line for an optional counter field.
pub open spec fn count_line(label: Seq<char>, o: Option<u64>) -> Seq<char> {
    line(label, dec_chars(opt_count(o) as nat))
}

/// A run of `n` dashes.
pub open spec fn dashes(n: int) -> Seq<char> {
    Seq::new(n as nat, |i: int| '-')
}

/// The whole rendered block: the identity header `login@github`, an
/// underline as long as that header, then the field lines in fixed order,
/// with the star total line only when a total is given.
pub open spec fn spec_render(rec: ProfileRecord, star_total: Option<u64>) -> Seq<char> {
    opt_text(rec.login) + "@github\n"@ + dashes(opt_text(rec.login).len() as int + 7) + "\n"@ + count_line(
        "ID"@,
        rec.id,
    ) + text_line("Name"@, rec.name) + text_line("Company"@, rec.company) + text_line(
        "Blog"@,
        rec.blog,
    ) + text_line("Location"@, rec.location) + text_line("Email"@, rec.email) + text_line(
        "Bio"@,
        rec.bio,
    ) + count_line("Public Repos"@, rec.public_repos) + count_line(
        "Public Gists"@,
        rec.public_gists,
    ) + count_line("Followers"@, rec.followers) + count_line("Following"@, rec.following) + (
    match star_total {
        Option::Some(t) => line("Total Stars"@, dec_chars(t as nat)),
        Option::None => Seq::<char>::empty(),
    }) + text_line("Created At"@, rec.created_at)
}

/// An absent text field renders with an empty value: its line is exactly
/// the label, the separator, and the line break, and nothing more.
pub proof fn lemma_absent_text_renders_empty(label: Seq<char>)
    ensures
        text_line(label, Option::None) == label + ": \n"@,
{
    reveal_strlit(": ");
    reveal_strlit("\n");
    reveal_strlit(": \n");
    assert(line(label, Seq::<char>::empty()) =~= label + ": \n"@);
}

/// An absent counter field renders as zero: its line is exactly the label,
/// the separator, the digit zero, and the line break.
pub proof fn lemma_absent_count_renders_zero(label: Seq<char>)
    ensures
        count_line(label, Option::None) == label + ": 0\n"@,
{
    reveal_strlit(": ");
    reveal_strlit("\n");
    reveal_strlit(": 0\n");
    assert(dec_chars(0) == seq![crate::numbers::digit_char(0)]);
    assert(line(label, dec_chars(0)) =~= label + ": 0\n"@);
}

fn opt_str(o: &Option<String>) -> (r: &str)
    ensures
        r@ == opt_text(*o),
{
    match o {
        Option::Some(s) => s.as_str(),
        Option::None => {
            proof {
                reveal_strlit("");
                assert(""@ =~= Seq::<char>::empty());
            }
            ""
        },
    }
}

fn opt_count_val(o: &Option<u64>) -> (r: u64)
    ensures
        r == opt_count(*o),
{
    match o {
        Option::Some(n) => *n,
        Option::None => 0,
    }
}

fn append_line(out: &mut String, label: &str, value: &str)
    ensures
        final(out)@ == old(out)@ + line(label@, value@),
{
    out.append(label);
    out.append(": ");
    out.append(value);
    out.append("\n");
    proof {
        assert(out@ =~= old(out)@ + line(label@, value@));
    }
}

fn append_text_line(out: &mut String, label: &str, o: &Option<String>)
    ensures
        final(out)@ == old(out)@ + text_line(label@, *o),
{
    append_line(out, label, opt_str(o));
}

fn append_count_line(out: &mut String, label: &str, o: &Option<u64>)
    ensures
        final(out)@ == old(out)@ + count_line(label@, *o),
{
    let v = u64_to_string(opt_count_val(o));
    append_line(out, label, v.as_str());
}

fn append_dashes(out: &mut String, n: usize)
    ensures
        final(out)@ == old(out)@ + dashes(n as int),
{
    proof {
        assert(old(out)@ + dashes(0) =~= old(out)@);
    }
    let mut j: usize = 0;
    while j < n
        invariant
            j <= n,
            out@ == old(out)@ + dashes(j as int),
        decreases n - j,
    {
        out.append("-");
        proof {
            reveal_strlit("-");
            assert("-"@.len() == 1 && "-"@[0] == '-');
            assert(old(out)@ + dashes(j as int) + "-"@ =~= old(out)@ + dashes(j + 1));
        }
        j = j + 1;
    }
}

/// Render the record, and the star total when one was computed, as the
/// plain text block.
pub fn render(rec: &ProfileRecord, star_total: Option<u64>) -> (r: String)
    ensures
        r@ == spec_render(*rec, star_total),
{
    let mut out = String::new();
    out.append(opt_str(&rec.login));
    out.append("@github\n");
    let n: usize = opt_str(&rec.login).unicode_len();
    append_dashes(&mut out, n);
    out.append("-------");
    proof {
        reveal_strlit("-------");
        assert("-------"@ =~= dashes(7));
        assert(dashes(n as int) + dashes(7) =~= dashes(n as int + 7));
    }
    out.append("\n");
    append_count_line(&mut out, "ID", &rec.id);
    append_text_line(&mut out, "Name", &rec.name);
    append_text_line(&mut out, "Company", &rec.company);
    append_text_line(&mut out, "Blog", &rec.blog);
    append_text_line(&mut out, "Location", &rec.location);
    append_text_line(&mut out, "Email", &rec.email);
    append_text_line(&mut out, "Bio", &rec.bio);
    append_count_line(&mut out, "Public Repos", &rec.public_repos);
    append_count_line(&mut out, "Public Gists", &rec.public_gists);
    append_count_line(&mut out, "Followers", &rec.followers);
    append_count_line(&mut out, "Following", &rec.following);
    match star_total {
        Option::Some(t) => {
            let v = u64_to_string(t);
            append_line(&mut out, "Total Stars", v.as_str());
        },
        Option::None => {},
    }
    append_text_line(&mut out, "Created At", &rec.created_at);
    proof {
        assert(out@ =~= spec_render(*rec, star_total));
    }
    out
}

} // verus!
