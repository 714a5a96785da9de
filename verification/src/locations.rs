//! The server locations that `list-locations` prints, parsed into the entries of the
//! location picker.

use vstd::prelude::*;
use crate::text::{
    all_ascii_digits, all_ascii_upper, has_prefix, join, join_range, lines, only_ascii_digits,
    only_ascii_upper, same_text, split_lines, split_words, trim, trimmed, words,
};

verus! {

broadcast use vstd::string::group_string_axioms;

/// A server location: its two-letter ISO code, which `connect -l` takes, and the text
/// that the picker shows.
#[derive(Debug, PartialEq, Eq)]
pub struct Location {
    pub iso: String,
    pub label: String,
}

/// The model of a `Location`.
pub struct LocationView {
    pub iso: Seq<char>,
    pub label: Seq<char>,
}

impl View for Location {
    type V = LocationView;

    open spec fn view(&self) -> LocationView {
        LocationView { iso: self.iso@, label: self.label@ }
    }
}

impl DeepView for Location {
    type V = LocationView;

    open spec fn deep_view(&self) -> LocationView {
        self@
    }
}

impl Clone for Location {
    fn clone(&self) -> (r: Location)
        ensures
            r@ == self@,
    {
        Location { iso: self.iso.clone(), label: self.label.clone() }
    }
}

/// The words of a line of `list-locations` that open its table header.
pub open spec fn is_header_word(w: Seq<char>) -> bool {
    w == "ISO"@ || w == "--"@ || w == "ESTIMATE"@
}

/// The location that one line of `list-locations` describes, if any. The line is read
/// as words `ISO COUNTRY... CITY... [PING]`: there are at least three, the first is a
/// two-letter code in capitals and not a header word. When the last word is all digits
/// it is the ping in milliseconds, and the label is `ISO  MIDDLE  (PING ms)`; else the
/// label is `ISO  MIDDLE`. MIDDLE is the words in between, joined by single spaces.
pub open spec fn location_of_line(line: Seq<char>) -> Option<LocationView> {
    let parts = words(trimmed(line));
    if parts.len() >= 3 && parts[0].len() == 2 && all_ascii_upper(parts[0]) && !is_header_word(
        parts[0],
    ) {
        let iso = parts[0];
        let label = if all_ascii_digits(parts.last()) {
            iso + "  "@ + join(parts.subrange(1, parts.len() - 1), " "@) + "  ("@ + parts.last()
                + " ms)"@
        } else {
            iso + "  "@ + join(parts.subrange(1, parts.len() as int), " "@)
        };
        Some(LocationView { iso, label })
    } else {
        None
    }
}

/// The locations that the lines `ls` describe, in order.
pub open spec fn locations_in(ls: Seq<Seq<char>>) -> Seq<LocationView>
    decreases ls.len(),
{
    if ls.len() == 0 {
        seq![]
    } else {
        let before = locations_in(ls.drop_last());
        match location_of_line(ls.last()) {
            Some(l) => before.push(l),
            None => before,
        }
    }
}

/// The locations that an output of `list-locations` lists.
pub open spec fn locations_listed(output: Seq<char>) -> Seq<LocationView> {
    locations_in(lines(output))
}

/// Reads one line of `list-locations` (see `location_of_line`).
pub fn location_from_line(line: &str) -> (r: Option<Location>)
    ensures
        r.deep_view() == location_of_line(line@),
{
    let t = trim(line);
    let parts = split_words(t.as_str());
    let ghost pv = parts.deep_view();
    assert(pv == words(trimmed(line@)));
    let n = parts.len();
    if n < 3 {
        return None;
    }
    assert(pv[0] == parts[0]@);
    let first = parts[0].as_str();
    let two = first.unicode_len() == 2;
    if !two || !only_ascii_upper(first) || same_text(first, "ISO") || same_text(first, "--")
        || same_text(first, "ESTIMATE") {
        return None;
    }
    let iso = parts[0].clone();
    let last = parts[n - 1].as_str();
    assert(pv.last() == last@);
    let mut label = iso.clone();
    label.append("  ");
    if only_ascii_digits(last) {
        let middle = join_range(&parts, 1, n - 1, " ");
        label.append(middle.as_str());
        label.append("  (");
        label.append(last);
        label.append(" ms)");
    } else {
        let middle = join_range(&parts, 1, n, " ");
        label.append(middle.as_str());
    }
    Some(Location { iso, label })
}

/// Reads the locations that an output of `list-locations` lists, in order.
pub fn parse_locations(output: &str) -> (r: Vec<Location>)
    ensures
        r.deep_view() == locations_listed(output@),
        forall|i: int|
            0 <= i < r.len() ==> {
                &&& #[trigger] r[i].iso@.len() == 2
                &&& all_ascii_upper(r[i].iso@)
                &&& has_prefix(r[i].label@, r[i].iso@)
            },
{
    let ls = split_lines(output);
    let ghost lv = ls.deep_view();
    let mut r: Vec<Location> = Vec::new();
    let mut i: usize = 0;
    assert(lv.take(0) =~= Seq::<Seq<char>>::empty());
    while i < ls.len()
        invariant
            lv == ls.deep_view(),
            lv == lines(output@),
            i <= ls.len(),
            r.deep_view() == locations_in(lv.take(i as int)),
            forall|j: int|
                0 <= j < r.len() ==> {
                    &&& #[trigger] r[j].iso@.len() == 2
                    &&& all_ascii_upper(r[j].iso@)
                    &&& has_prefix(r[j].label@, r[j].iso@)
                },
        decreases ls.len() - i,
    {
        assert(lv.take(i + 1).drop_last() =~= lv.take(i as int));
        assert(lv.take(i + 1).last() == ls[i as int]@);
        let entry = location_from_line(ls[i].as_str());
        match entry {
            Some(l) => {
                let ghost before = r.deep_view();
                assert(l.label@.take(l.iso@.len() as int) =~= l.iso@);
                r.push(l);
                assert(r.deep_view() =~= before.push(l@));
            },
            None => {},
        }
        i = i + 1;
    }
    assert(lv.take(ls.len() as int) =~= lv);
    r
}

} // verus!
