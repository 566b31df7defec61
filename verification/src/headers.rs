//! A map from lower-cased header names to values.
//!
//! The map is held as a sequence of name/value pairs; a later pair for the
//! same name wins, so setting a header that is already present replaces it in
//! the abstract map. Per-fetch overrides replace the session defaults rather
//! than merging with them: the set that a fetch applies is either the
//! override, exactly, or the defaults, exactly.

use vstd::prelude::*;
use vstd::string::*;

verus! {

/// A header name is lower-cased: it holds no ASCII capital letter.
pub open spec fn lower_name(s: Seq<char>) -> bool {
    forall|i: int| 0 <= i < s.len() ==> !('A' <= #[trigger] s[i] && s[i] <= 'Z')
}

/// The abstract map held by a pair sequence: a later pair for the same name
/// wins.
pub open spec fn map_of(pairs: Seq<(String, String)>) -> Map<Seq<char>, Seq<char>>
    decreases pairs.len(),
{
    if pairs.len() == 0 {
        Map::empty()
    } else {
        map_of(pairs.drop_last()).insert(pairs.last().0@, pairs.last().1@)
    }
}

/// A set of HTTP headers, abstractly a map from lower-cased name to value.
pub struct HeaderMap {
    pub(crate) pairs: Vec<(String, String)>,
}

impl View for HeaderMap {
    type V = Map<Seq<char>, Seq<char>>;

    closed spec fn view(&self) -> Map<Seq<char>, Seq<char>> {
        map_of(self.pairs@)
    }
}

impl HeaderMap {
    /// Every name in the map is lower-cased.
    pub open spec fn wf(&self) -> bool {
        forall|k: Seq<char>| self@.contains_key(k) ==> lower_name(k)
    }

    /// An empty header set.
    pub fn new() -> (h: HeaderMap)
        ensures
            h@ == Map::<Seq<char>, Seq<char>>::empty(),
            h.wf(),
    {
        HeaderMap { pairs: Vec::new() }
    }

    /// Sets `name` to `value`, replacing any earlier value for `name`.
    pub fn set(&mut self, name: &str, value: &str)
        requires
            lower_name(name@),
        ensures
            final(self)@ == old(self)@.insert(name@, value@),
            old(self).wf() ==> final(self).wf(),
    {
        let pair = (String::from_str(name), String::from_str(value));
        self.pairs.push(pair);
        proof {
            assert(self.pairs@.drop_last() =~= old(self).pairs@);
            assert(self@ == old(self)@.insert(name@, value@));
            if old(self).wf() {
                assert forall|k: Seq<char>| self@.contains_key(k) implies lower_name(k) by {
                    if k != name@ {
                        assert(old(self)@.contains_key(k));
                    }
                }
            }
        }
    }

    /// The name/value pairs as they are handed to the process boundary; a
    /// later pair for the same name wins there as it does here.
    pub fn entries(&self) -> (r: &Vec<(String, String)>)
        ensures
            map_of(r@) == self@,
    {
        &self.pairs
    }

    /// The value held for `name`, if any.
    pub fn get(&self, name: &str) -> (r: Option<String>)
        ensures
            r matches Some(v) ==> self@.contains_key(name@) && v@ == self@[name@],
            r is None ==> !self@.contains_key(name@),
    {
        let name_s = String::from_str(name);
        let ghost all = self.pairs@;
        let mut j = self.pairs.len();
        proof {
            assert(all.take(j as int) =~= all);
        }
        while j > 0
            invariant
                j <= self.pairs.len(),
                all == self.pairs@,
                name_s@ == name@,
                map_of(all).contains_key(name@) == map_of(all.take(j as int)).contains_key(
                    name@,
                ),
                map_of(all).contains_key(name@) ==> map_of(all.take(j as int))[name@] == map_of(
                    all,
                )[name@],
            decreases j,
        {
            j = j - 1;
            proof {
                assert(all.take(j + 1).drop_last() =~= all.take(j as int));
                assert(all.take(j + 1).last() == all[j as int]);
            }
            if name_s == self.pairs[j].0 {
                let v = self.pairs[j].1.clone();
                return Some(v);
            }
        }
        proof {
            assert(all.take(0) =~= Seq::<(String, String)>::empty());
        }
        None
    }
}

/// The header set that a fetch with override `headers` applies to its fresh
/// page context: the override where one was supplied, the session defaults
/// otherwise.
pub open spec fn spec_applied_headers(defaults: HeaderMap, headers: Option<HeaderMap>) -> Map<
    Seq<char>,
    Seq<char>,
> {
    match headers {
        Some(h) => h@,
        None => defaults@,
    }
}

/// The header set that a fetch applies: the per-call override where one was
/// supplied, replacing the session defaults entirely, and the defaults
/// themselves otherwise. The defaults are never changed either way, so an
/// override supplied to one call cannot reach the next.
pub fn effective_headers<'a>(defaults: &'a HeaderMap, overrides: &'a Option<HeaderMap>) -> (h:
    &'a HeaderMap)
    ensures
        h@ == spec_applied_headers(*defaults, *overrides),
        overrides matches Some(o) ==> h@ == o@,
        overrides is None ==> h@ == defaults@,
{
    match overrides {
        Some(o) => o,
        None => defaults,
    }
}

} // verus!
