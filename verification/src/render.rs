//! The renderer's text handling: splitting captured report text into the
//! ordered lines that are written to the paginated document.

use vstd::prelude::*;
use vstd::string::StrSliceExecFns;

verus! {

/// Relies on `String::push` of std: it appends the given character to the
/// end of the string.
pub assume_specification[ String::push ](s: &mut String, ch: char)
    ensures
        final(s)@ == old(s)@.push(ch),
;

/// Splitting a text on newline characters, separators dropped, order kept:
/// an empty text is one empty line, a leading newline opens a new empty
/// line, and any other leading character extends the first line. This is
/// what the standard newline split yields, a trailing newline included: it
/// leaves an empty last line.
pub open spec fn spec_split_lines(s: Seq<char>) -> Seq<Seq<char>>
    decreases s.len(),
{
    if s.len() == 0 {
        seq![Seq::<char>::empty()]
    } else if s[0] == '\n' {
        seq![Seq::<char>::empty()] + spec_split_lines(s.drop_first())
    } else {
        let rest = spec_split_lines(s.drop_first());
        seq![seq![s[0]] + rest[0]] + rest.drop_first()
    }
}

/// A split always yields at least one line.
pub proof fn lemma_split_lines_len(s: Seq<char>)
    ensures
        spec_split_lines(s).len() >= 1,
    decreases s.len(),
{
    if s.len() != 0 {
        lemma_split_lines_len(s.drop_first());
    }
}

/// The lines of a text whose first line is extended by the prefix.
pub open spec fn spec_prepend_first(prefix: Seq<char>, r: Seq<Seq<char>>) -> Seq<Seq<char>>
    recommends
        r.len() >= 1,
{
    seq![prefix + r[0]] + r.drop_first()
}

/// Splits the captured report text on newline boundaries into its ordered
/// sequence of lines.
pub fn split_lines(atext: &str) -> (r: Vec<String>)
    ensures
        r@.map_values(|l: String| l@) == spec_split_lines(atext@),
{
    let n = atext.unicode_len();
    let mut lines: Vec<String> = Vec::new();
    let mut current = String::new();
    let mut i: usize = 0;
    proof {
        lemma_split_lines_len(atext@);
        assert(atext@.skip(0) =~= atext@);
        assert(lines@.map_values(|l: String| l@) + spec_prepend_first(
            current@,
            spec_split_lines(atext@.skip(0)),
        ) =~~= spec_split_lines(atext@));
    }
    while i < n
        invariant
            n == atext@.len(),
            i <= n,
            spec_split_lines(atext@) == lines@.map_values(|l: String| l@) + spec_prepend_first(
                current@,
                spec_split_lines(atext@.skip(i as int)),
            ),
        decreases n - i,
    {
        let ghost rest = atext@.skip(i as int);
        let ghost prev_lines = lines@;
        let ghost prev_current = current@;
        proof {
            assert(rest.len() > 0);
            assert(rest[0] == atext@[i as int]);
            assert(rest.drop_first() =~= atext@.skip(i as int + 1));
            lemma_split_lines_len(atext@.skip(i as int + 1));
        }
        let c = atext.get_char(i);
        if c == '\n' {
            lines.push(current);
            current = String::new();
            proof {
                assert(spec_split_lines(rest) =~~= seq![Seq::<char>::empty()]
                    + spec_split_lines(atext@.skip(i as int + 1)));
                assert(lines@.map_values(|l: String| l@) =~= prev_lines.map_values(
                    |l: String| l@,
                ).push(prev_current));
                assert(lines@.map_values(|l: String| l@) + spec_prepend_first(
                    current@,
                    spec_split_lines(atext@.skip(i as int + 1)),
                ) =~~= prev_lines.map_values(|l: String| l@) + spec_prepend_first(
                    prev_current,
                    spec_split_lines(rest),
                ));
            }
        } else {
            current.push(c);
            proof {
                let tail_split = spec_split_lines(atext@.skip(i as int + 1));
                assert(spec_split_lines(rest) =~~= seq![seq![rest[0]] + tail_split[0]]
                    + tail_split.drop_first());
                assert(spec_prepend_first(current@, tail_split) =~~= spec_prepend_first(
                    prev_current,
                    spec_split_lines(rest),
                ));
            }
        }
        i = i + 1;
    }
    proof {
        assert(atext@.skip(n as int) =~= Seq::<char>::empty());
        assert(spec_prepend_first(current@, spec_split_lines(Seq::<char>::empty())) =~~= seq![
            current@,
        ]);
    }
    let ghost prev_lines = lines@;
    let ghost prev_current = current@;
    lines.push(current);
    proof {
        assert(lines@.map_values(|l: String| l@) =~= prev_lines.map_values(|l: String| l@).push(
            prev_current,
        ));
        assert(lines@.map_values(|l: String| l@) =~~= spec_split_lines(atext@));
    }
    lines
}

} // verus!
