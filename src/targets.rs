//! The target catalog: triples reported by the enumeration tool, each
//! enabled unless the exclusion pattern matches it.
use pad::PadStr;
use vstd::prelude::*;
use vstd::utf8::{decode_utf8, encode_utf8, valid_utf8};
use crate::command::{decode_stream, CommandOutput};
use crate::error::CritError;
use crate::order::{compare_chars, lemma_lt_transitive, seq_lt, strictly_sorted};
use crate::pattern::{regex_finds, Pattern};
use crate::text::{chars_of, first_token, lines_of, split_lines, token_of};

verus! {

/// A platform triple and whether builds for it are enabled.
#[derive(Debug, Clone, PartialEq, Eq)]
pub struct Target {
    pub triple: String,
    pub enabled: bool,
}

/// The triples of a target list, in order.
pub open spec fn triples(ts: Seq<Target>) -> Seq<Seq<char>> {
    ts.map_values(|t: Target| t.triple@)
}

/// `t` is the first token of one of `lines`.
pub open spec fn among_tokens(lines: Seq<Seq<char>>, t: Seq<char>) -> bool {
    exists|j: int| 0 <= j < lines.len() && first_token(#[trigger] lines[j]) == Some(t)
}

/// `ts` lists each triple of `lines` once, in lexicographic order, enabled
/// exactly when `exclusion` does not match it.
pub open spec fn is_catalog(ts: Seq<Target>, exclusion: Seq<char>, lines: Seq<Seq<char>>) -> bool {
    &&& strictly_sorted(triples(ts))
    &&& forall|i: int|
        0 <= i < ts.len() ==> among_tokens(lines, #[trigger] ts[i].triple@) && ts[i].enabled
            == !regex_finds(exclusion, ts[i].triple@)
    &&& forall|t: Seq<char>|
        #[trigger] among_tokens(lines, t) ==> exists|i: int|
            0 <= i < ts.len() && #[trigger] ts[i].triple@ == t
}

/// Inserts `t` at its place in a strictly sorted list, unless its triple is
/// already there; returns the place and whether it inserted.
fn insert_sorted(ts: &mut Vec<Target>, t: Target) -> (r: (usize, bool))
    requires
        strictly_sorted(triples(old(ts)@)),
    ensures
        strictly_sorted(triples(final(ts)@)),
        r.1 ==> r.0 <= old(ts)@.len() && final(ts)@ == old(ts)@.insert(r.0 as int, t),
        !r.1 ==> r.0 < old(ts)@.len() && old(ts)@[r.0 as int].triple@ == t.triple@ && final(ts)@
            == old(ts)@,
{
    let key = chars_of(t.triple.as_str());
    let mut i: usize = 0;
    while i < ts.len()
        invariant
            i <= ts@.len(),
            ts@ == old(ts)@,
            strictly_sorted(triples(ts@)),
            key@ == t.triple@,
            forall|j: int| 0 <= j < i ==> seq_lt(#[trigger] ts@[j].triple@, t.triple@),
        ensures
            i <= ts@.len(),
            i < ts@.len() ==> seq_lt(t.triple@, ts@[i as int].triple@),
            forall|j: int| 0 <= j < i ==> seq_lt(#[trigger] ts@[j].triple@, t.triple@),
        decreases ts@.len() - i,
    {
        let other = chars_of(ts[i].triple.as_str());
        let c = compare_chars(&key, &other);
        if c == 0 {
            return (i, false);
        }
        if c < 0 {
            break;
        }
        i += 1;
    }
    proof {
        let old_keys = triples(ts@);
        if i < ts@.len() {
            assert(seq_lt(t.triple@, old_keys[i as int]));
        }
        assert forall|j: int| i < j < old_keys.len() implies seq_lt(t.triple@, #[trigger] old_keys[j]) by {
            assert(seq_lt(old_keys[i as int], old_keys[j]));
            lemma_lt_transitive(t.triple@, old_keys[i as int], old_keys[j]);
        }
    }
    ts.insert(i, t);
    proof {
        let new_keys = triples(ts@);
        let old_keys = triples(old(ts)@);
        assert(new_keys == old_keys.insert(i as int, t.triple@));
        assert forall|a: int, b: int| 0 <= a < b < new_keys.len() implies seq_lt(
            #[trigger] new_keys[a],
            #[trigger] new_keys[b],
        ) by {
            if b < i {
                assert(seq_lt(old_keys[a], old_keys[b]));
            } else if a > i {
                assert(seq_lt(old_keys[a - 1], old_keys[b - 1]));
            } else if a == i {
                assert(seq_lt(t.triple@, old_keys[b - 1]));
            } else if b == i {
                assert(seq_lt(old_keys[a], t.triple@));
            } else {
                assert(seq_lt(old_keys[a], old_keys[b - 1]));
            }
        }
    }
    (i, true)
}

/// Classifies each triple of a target listing: one target per distinct
/// first token of a line, in lexicographic order, enabled exactly when
/// `exclusion` does not match the triple.
pub fn parse_targets(exclusion: &Pattern, listing: &str) -> (r: Vec<Target>)
    ensures
        is_catalog(r@, exclusion@, lines_of(listing@)),
{
    let lines = split_lines(listing);
    let ghost views = lines@.map_values(|l: String| l@);
    let mut ts: Vec<Target> = Vec::new();
    let mut i: usize = 0;
    while i < lines.len()
        invariant
            i <= lines@.len(),
            views == lines@.map_values(|l: String| l@),
            views == lines_of(listing@),
            is_catalog(ts@, exclusion@, views.take(i as int)),
        decreases lines@.len() - i,
    {
        let ghost before = ts@;
        let ghost seen = views.take(i as int);
        let ghost now = views.take(i + 1);
        assert forall|t: Seq<char>| among_tokens(seen, t) implies among_tokens(now, t) by {
            let j = choose|j: int| 0 <= j < seen.len() && first_token(#[trigger] seen[j]) == Some(t);
            assert(now[j] == seen[j]);
        }
        match token_of(lines[i].as_str()) {
            Some(tok) => {
                let enabled = !exclusion.is_match(tok.as_str());
                let ghost tv = tok@;
                let (k, inserted) = insert_sorted(&mut ts, Target { triple: tok, enabled });
                proof {
                    assert(now[i as int] == lines@[i as int]@);
                    assert(among_tokens(now, tv));
                    assert forall|t: Seq<char>| #[trigger] among_tokens(now, t) implies exists|m: int|
                        0 <= m < ts@.len() && #[trigger] ts@[m].triple@ == t by {
                        let j = choose|j: int| 0 <= j < now.len() && first_token(#[trigger] now[j]) == Some(t);
                        if j < i {
                            assert(seen[j] == now[j]);
                            assert(among_tokens(seen, t));
                            let m = choose|m: int| 0 <= m < before.len() && #[trigger] before[m].triple@ == t;
                            if inserted && m >= k {
                                assert(ts@[m + 1] == before[m]);
                                assert(0 <= m + 1 < ts@.len() && ts@[m + 1].triple@ == t);
                            } else {
                                assert(ts@[m] == before[m]);
                                assert(0 <= m < ts@.len() && ts@[m].triple@ == t);
                            }
                        } else {
                            assert(j == i);
                            assert(t == tv);
                            assert(0 <= k < ts@.len() && ts@[k as int].triple@ == t);
                        }
                    }
                    assert forall|m: int| 0 <= m < ts@.len() implies among_tokens(now, #[trigger] ts@[m].triple@)
                        && ts@[m].enabled == !regex_finds(exclusion@, ts@[m].triple@) by {
                        if inserted && m == k {
                        } else if inserted && m > k {
                            assert(ts@[m] == before[m - 1]);
                        } else {
                            assert(ts@[m] == before[m]);
                        }
                    }
                }
            },
            None => {
                proof {
                    assert forall|t: Seq<char>| #[trigger] among_tokens(now, t) implies among_tokens(seen, t) by {
                        let j = choose|j: int| 0 <= j < now.len() && first_token(#[trigger] now[j]) == Some(t);
                        assert(now[i as int] == lines@[i as int]@);
                        assert(j != i);
                        assert(seen[j] == now[j]);
                    }
                }
            },
        }
        i += 1;
    }
    assert(views.take(i as int) == views);
    ts
}

/// Classifies the targets of an enumeration tool's run: fails with
/// `ToolInvocation` when the tool could not be started, with `Query` when it
/// reported failure (whatever stream carries its message), with `Decode`
/// when its output is not UTF-8 text.
pub fn discover(exclusion: &Pattern, listing: &Option<CommandOutput>) -> (r: Result<Vec<Target>, CritError>)
    ensures
        match listing {
            None => r == Err::<Vec<Target>, CritError>(CritError::ToolInvocation),
            Some(o) => if !o.success {
                r == Err::<Vec<Target>, CritError>(CritError::Query)
            } else if !valid_utf8(o.stdout@) {
                r == Err::<Vec<Target>, CritError>(CritError::Decode)
            } else {
                r matches Ok(ts) && is_catalog(ts@, exclusion@, lines_of(decode_utf8(o.stdout@)))
            },
        },
{
    let o = match listing {
        None => return Err(CritError::ToolInvocation),
        Some(o) => o,
    };
    if !o.success {
        return Err(CritError::Query);
    }
    match decode_stream(&o.stdout) {
        Some(text) => Ok(parse_targets(exclusion, text.as_str())),
        None => Err(CritError::Decode),
    }
}

/// The display width that `pad` measures a string by (Unicode columns).
pub uninterp spec fn display_width(s: Seq<char>) -> nat;

/// `s` followed by spaces up to `w` display columns, unchanged if it is
/// that wide already.
pub open spec fn padded(s: Seq<char>, w: nat) -> Seq<char> {
    if display_width(s) >= w {
        s
    } else {
        s + Seq::new((w - display_width(s)) as nat, |i: int| ' ')
    }
}

/// Relies on `pad::PadStr::pad_to_width`: left-aligns `s` in `width` columns.
#[verifier::external_body]
fn pad_to_width(s: &str, width: usize) -> (r: String)
    ensures
        display_width(s@) >= width ==> r@ == s@,
        display_width(s@) < width ==> r@ == s@ + Seq::new(
            (width - display_width(s@)) as nat,
            |i: int| ' ',
        ),
{
    s.pad_to_width(width)
}

/// Length in UTF-8 bytes.
pub open spec fn byte_len(s: Seq<char>) -> usize {
    encode_utf8(s).len() as usize
}

/// The width of the table's first column: the longest triple in bytes, and
/// at least the width of its header.
pub open spec fn column_width(ts: Seq<Target>) -> usize
    decreases ts.len(),
{
    if ts.len() == 0 {
        6
    } else {
        let w = column_width(ts.drop_last());
        let l = byte_len(ts.last().triple@);
        if l > w {
            l
        } else {
            w
        }
    }
}

/// How the table writes a flag.
pub open spec fn bool_text(b: bool) -> Seq<char> {
    if b {
        "true"@
    } else {
        "false"@
    }
}

/// One line per target: a line feed, the padded triple, a space, the flag.
pub open spec fn table_rows(ts: Seq<Target>, w: nat) -> Seq<char>
    decreases ts.len(),
{
    if ts.len() == 0 {
        seq![]
    } else {
        table_rows(ts.drop_last(), w) + "\n"@ + padded(ts.last().triple@, w) + " "@ + bool_text(
            ts.last().enabled,
        )
    }
}

/// The rendered target table: a header line, then one row per target.
pub open spec fn target_table(ts: Seq<Target>) -> Seq<char> {
    padded("TARGET"@, column_width(ts) as nat) + " ENABLED"@ + table_rows(ts, column_width(ts) as nat)
}

/// Renders a target table, in the order given.
pub fn format_targets(targets: &Vec<Target>) -> (r: Result<String, String>)
    ensures
        r matches Ok(s) && s@ == target_table(targets@),
{
    let mut w: usize = 6;
    let mut i: usize = 0;
    while i < targets.len()
        invariant
            i <= targets@.len(),
            w == column_width(targets@.take(i as int)),
        decreases targets@.len() - i,
    {
        assert(targets@.take(i + 1).drop_last() == targets@.take(i as int));
        let l = targets[i].triple.as_str().len();
        if l > w {
            w = l;
        }
        i += 1;
    }
    assert(targets@.take(i as int) == targets@);
    let mut buf = pad_to_width("TARGET", w);
    buf.append(" ENABLED");
    let ghost head = buf@;
    let mut j: usize = 0;
    while j < targets.len()
        invariant
            j <= targets@.len(),
            buf@ == head + table_rows(targets@.take(j as int), w as nat),
        decreases targets@.len() - j,
    {
        assert(targets@.take(j + 1).drop_last() == targets@.take(j as int));
        let cell = pad_to_width(targets[j].triple.as_str(), w);
        assert(cell@ == padded(targets@[j as int].triple@, w as nat));
        buf.append("\n");
        buf.append(cell.as_str());
        buf.append(" ");
        if targets[j].enabled {
            buf.append("true");
        } else {
            buf.append("false");
        }
        assert(buf@ == head + table_rows(targets@.take(j + 1), w as nat));
        j += 1;
    }
    assert(targets@.take(j as int) == targets@);
    Ok(buf)
}

} // verus!
