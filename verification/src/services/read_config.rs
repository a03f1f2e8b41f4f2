//! Profile names from the sections of the AWS configuration file.
//!
//! A named profile is configured in a section headed `[profile NAME]`; the
//! profile list is the set of those names in lexicographic order. Reading the
//! file itself is up to the caller, which hands over the section names.
use vstd::prelude::*;
use crate::text::{chars_from, chars_of, occurs_at, occurs_at_exec, string_from_chars};

verus! {

/// The prefix of a section that configures a named profile.
pub open spec fn profile_prefix() -> Seq<char> {
    seq!['p', 'r', 'o', 'f', 'i', 'l', 'e', ' ']
}

/// The profile a section configures, if it is a profile section.
pub open spec fn profile_name(section: Seq<char>) -> Option<Seq<char>> {
    if occurs_at(section, profile_prefix(), 0) {
        Some(section.subrange(8, section.len() as int))
    } else {
        None
    }
}

/// The profile names of the profile sections, in the order of the sections.
pub open spec fn profiles_in(sections: Seq<Seq<char>>) -> Seq<Seq<char>>
    decreases sections.len(),
{
    if sections.len() == 0 {
        Seq::empty()
    } else {
        match profile_name(sections.last()) {
            Some(p) => profiles_in(sections.drop_last()).push(p),
            None => profiles_in(sections.drop_last()),
        }
    }
}

/// Lexicographic order on texts, character by character (the order of
/// `String`'s `Ord`).
pub open spec fn text_le(a: Seq<char>, b: Seq<char>) -> bool
    decreases a.len(),
{
    if a.len() == 0 {
        true
    } else if b.len() == 0 {
        false
    } else if a[0] != b[0] {
        (a[0] as int) < (b[0] as int)
    } else {
        text_le(a.drop_first(), b.drop_first())
    }
}

/// Each text comes no later than those after it.
pub open spec fn sorted_texts(s: Seq<Seq<char>>) -> bool {
    forall|i: int, j: int| 0 <= i < j < s.len() ==> text_le(#[trigger] s[i], #[trigger] s[j])
}

/// Of two texts, one comes no later than the other.
pub proof fn lemma_text_le_total(a: Seq<char>, b: Seq<char>)
    ensures
        text_le(a, b) || text_le(b, a),
    decreases a.len(),
{
    if a.len() > 0 && b.len() > 0 && a[0] == b[0] {
        lemma_text_le_total(a.drop_first(), b.drop_first());
    }
}

/// The order is transitive.
pub proof fn lemma_text_le_transitive(a: Seq<char>, b: Seq<char>, c: Seq<char>)
    requires
        text_le(a, b),
        text_le(b, c),
    ensures
        text_le(a, c),
    decreases a.len(),
{
    if a.len() > 0 && b.len() > 0 && c.len() > 0 && a[0] == b[0] && b[0] == c[0] {
        lemma_text_le_transitive(a.drop_first(), b.drop_first(), c.drop_first());
    }
}

/// Whether `a` comes no later than `b`.
fn text_le_exec(a: &Vec<char>, b: &Vec<char>) -> (r: bool)
    ensures
        r == text_le(a@, b@),
{
    let mut i: usize = 0;
    assert(a@.skip(0) =~= a@ && b@.skip(0) =~= b@);
    while i < a.len()
        invariant
            i <= a@.len(),
            i <= b@.len(),
            text_le(a@, b@) == text_le(a@.skip(i as int), b@.skip(i as int)),
        decreases a@.len() - i,
    {
        if i == b.len() {
            return false;
        }
        let x = a[i];
        let y = b[i];
        assert(a@.skip(i as int)[0] == x && b@.skip(i as int)[0] == y);
        if x != y {
            return x < y;
        }
        assert(a@.skip(i as int).drop_first() =~= a@.skip(i + 1));
        assert(b@.skip(i as int).drop_first() =~= b@.skip(i + 1));
        i = i + 1;
    }
    true
}

/// The profile a section configures, if it is a profile section.
pub fn strip_profile(section: &str) -> (r: Option<String>)
    ensures
        match r {
            Some(p) => profile_name(section@) == Some(p@),
            None => profile_name(section@) is None,
        },
{
    let cs = chars_of(section);
    let prefix = vec!['p', 'r', 'o', 'f', 'i', 'l', 'e', ' '];
    assert(prefix@ =~= profile_prefix());
    if occurs_at_exec(cs.as_slice(), prefix.as_slice(), 0) {
        let rest = chars_from(cs.as_slice(), 8);
        Some(string_from_chars(rest.as_slice()))
    } else {
        None
    }
}

/// The profile names configured by the given sections, sorted
/// lexicographically. Sections that are not `profile NAME` sections (such as
/// `default`) give none.
pub fn profile_names(sections: &Vec<String>) -> (r: Vec<String>)
    ensures
        sorted_texts(r.deep_view()),
        r.deep_view().to_multiset() == profiles_in(sections.deep_view()).to_multiset(),
{
    broadcast use vstd::seq_lib::group_to_multiset_ensures;

    let mut r: Vec<String> = Vec::new();
    let mut k: usize = 0;
    while k < sections.len()
        invariant
            k <= sections@.len(),
            sorted_texts(r.deep_view()),
            r.deep_view().to_multiset() == profiles_in(
                sections.deep_view().subrange(0, k as int),
            ).to_multiset(),
        decreases sections@.len() - k,
    {
        let ghost done = sections.deep_view().subrange(0, k as int);
        let ghost next = sections.deep_view().subrange(0, k + 1);
        assert(next.drop_last() =~= done);
        assert(next.last() == sections@[k as int]@);
        match strip_profile(sections[k].as_str()) {
            Some(p) => {
                let ghost pv = p@;
                assert(profiles_in(next) == profiles_in(done).push(pv));
                insert_sorted(&mut r, p);
                proof {
                    vstd::seq_lib::to_multiset_build(profiles_in(done), pv);
                }
            },
            None => {
                assert(profiles_in(next) == profiles_in(done));
            },
        }
        k = k + 1;
    }
    assert(sections.deep_view().subrange(0, sections@.len() as int) =~= sections.deep_view());
    r
}

/// Inserts `p` after the texts that come no later than it.
fn insert_sorted(r: &mut Vec<String>, p: String)
    requires
        sorted_texts(old(r).deep_view()),
    ensures
        sorted_texts(final(r).deep_view()),
        final(r).deep_view().to_multiset() == old(r).deep_view().to_multiset().insert(p@),
        final(r).deep_view().len() == old(r).deep_view().len() + 1,
{
    broadcast use vstd::seq_lib::group_to_multiset_ensures;

    let pc = chars_of(p.as_str());
    let mut pos: usize = 0;
    while pos < r.len()
        invariant
            pos <= r@.len(),
            pc@ == p@,
            forall|j: int| 0 <= j < pos ==> text_le(#[trigger] r.deep_view()[j], p@),
        ensures
            pos <= r@.len(),
            forall|j: int| 0 <= j < pos ==> text_le(#[trigger] r.deep_view()[j], p@),
            pos < r@.len() ==> !text_le(r.deep_view()[pos as int], p@),
        decreases r@.len() - pos,
    {
        let rc = chars_of(r[pos].as_str());
        assert(rc@ == r.deep_view()[pos as int]);
        if !text_le_exec(&rc, &pc) {
            break;
        }
        pos = pos + 1;
    }
    let ghost before = r.deep_view();
    proof {
        if pos < before.len() {
            lemma_text_le_total(before[pos as int], p@);
            assert forall|j: int| pos <= j < before.len() implies text_le(p@, #[trigger] before[j]) by {
                if j > pos {
                    lemma_text_le_transitive(p@, before[pos as int], before[j]);
                }
            }
        }
    }
    r.insert(pos, p);
    let ghost after = r.deep_view();
    assert(after =~= before.insert(pos as int, p@));
    assert forall|i: int, j: int| 0 <= i < j < after.len() implies text_le(
        #[trigger] after[i],
        #[trigger] after[j],
    ) by {
        if j < pos {
            assert(after[i] == before[i] && after[j] == before[j]);
        } else if j == pos {
            assert(after[i] == before[i]);
        } else if i < pos {
            assert(after[i] == before[i] && after[j] == before[j - 1]);
            lemma_text_le_transitive(before[i], p@, before[j - 1]);
        } else if i == pos {
            assert(after[j] == before[j - 1]);
        } else {
            assert(after[i] == before[i - 1] && after[j] == before[j - 1]);
        }
    }
}

} // verus!
