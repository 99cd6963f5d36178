//! General-purpose helpers on std types.

use core::cmp::Ordering;
use core::ops::Range;
use std::sync::Arc;
use vstd::pervasive::cloned;
use vstd::prelude::*;
use vstd::slice::slice_index_get;
use vstd::slice::slice_subrange;
use vstd::std_specs::cmp::PartialEqSpec;
use vstd::std_specs::cmp::PartialOrdSpec;
use vstd::string::StrSliceExecFns;

verus! {

/// The state of a run-by-equality grouping over a slice; created by
/// [`SliceExt::group`].
pub struct Group<'a, T> {
    /// What remains to be grouped.
    pub slice: &'a [T],
}

/// The state of a run-by-key grouping over a slice; created by
/// [`SliceExt::group_by_key`].
pub struct GroupByKey<'a, T, F> {
    /// What remains to be grouped.
    pub slice: &'a [T],
    /// The key function runs are formed under.
    pub f: F,
}

/// Additional methods for slices.
pub trait SliceExt<T: PartialEq> {
    /// The elements of the slice.
    spec fn elements(&self) -> Seq<T>;

    /// Find consecutive runs of the same elements in a slice and yield for
    /// each such run the element and the number of times it appears.
    fn group(&self) -> (r: Group<'_, T>)
        ensures
            r.slice@ == self.elements(),
    ;

    /// Split a slice into consecutive runs with the same key and yield for
    /// each such run the key and the slice of elements with that key.
    fn group_by_key<K: PartialEq, F: Fn(&T) -> K>(&self, f: F) -> (r: GroupByKey<'_, T, F>)
        ensures
            r.slice@ == self.elements(),
            r.f == f,
    ;
}

impl<T: PartialEq> SliceExt<T> for [T] {
    open spec fn elements(&self) -> Seq<T> {
        self@
    }

    fn group(&self) -> (r: Group<'_, T>) {
        Group { slice: self }
    }

    fn group_by_key<K: PartialEq, F: Fn(&T) -> K>(&self, f: F) -> (r: GroupByKey<'_, T, F>) {
        GroupByKey { slice: self, f }
    }
}

impl<'a, T, K: PartialEq, F: Fn(&T) -> K> GroupByKey<'a, T, F> {
    /// Some answer of the key function `f` on `x` compares to `key` with the
    /// outcome `same`, wherever the keys' `==` obeys its specification.
    pub open spec fn maps_to(f: F, x: T, key: K, same: bool) -> bool {
        exists|k: K|
            #[trigger] call_ensures(f, (&x,), k) && (K::obeys_eq_spec() ==> k.eq_spec(&key)
                == same)
    }

    /// The next run: its key and its elements. The run is a non-empty prefix
    /// of what remained, and grouping resumes right behind it. The yielded
    /// key is an answer of the key function on the run's first element, and,
    /// where the keys' `==` obeys its specification, every further run
    /// element maps to a key equal to it while the element just past the run
    /// does not.
    pub fn next(&mut self) -> (r: Option<(K, &'a [T])>)
        requires
            forall|t: &T| #[trigger] old(self).f.requires((t,)),
        ensures
            final(self).f == old(self).f,
            old(self).slice@.len() == 0 ==> (r is None
                && final(self).slice@ == old(self).slice@),
            old(self).slice@.len() > 0 ==> (r matches Some(run)
                && 1 <= run.1@.len() <= old(self).slice@.len()
                && run.1@ == old(self).slice@.subrange(0, run.1@.len() as int)
                && final(self).slice@ == old(self).slice@.subrange(
                run.1@.len() as int,
                old(self).slice@.len() as int,
            ) && call_ensures(old(self).f, (&old(self).slice@[0],), run.0) && (forall|j: int|
                1 <= j < run.1@.len() ==> #[trigger] Self::maps_to(
                    old(self).f,
                    old(self).slice@[j],
                    run.0,
                    true,
                )) && (run.1@.len() < old(self).slice@.len() ==> Self::maps_to(
                old(self).f,
                old(self).slice@[run.1@.len() as int],
                run.0,
                false,
            ))),
    {
        let s: &'a [T] = self.slice;
        if s.len() == 0 {
            return None;
        }
        let ghost f0 = self.f;
        let key = (self.f)(slice_index_get(s, 0));
        let mut count: usize = 1;
        loop
            invariant
                1 <= count <= s@.len(),
                s@.len() > 0,
                self.f == f0,
                forall|t: &T| #[trigger] self.f.requires((t,)),
                call_ensures(f0, (&s@[0],), key),
                forall|j: int|
                    1 <= j < count ==> #[trigger] Self::maps_to(f0, s@[j], key, true),
            ensures
                1 <= count <= s@.len(),
                self.f == f0,
                forall|j: int|
                    1 <= j < count ==> #[trigger] Self::maps_to(f0, s@[j], key, true),
                count < s@.len() ==> Self::maps_to(f0, s@[count as int], key, false),
            decreases s@.len() - count,
        {
            if count >= s.len() {
                break;
            }
            let k = (self.f)(slice_index_get(s, count));
            let same = k == key;
            proof {
                assert(call_ensures(f0, (&s@[count as int],), k));
                assert(Self::maps_to(f0, s@[count as int], key, same));
            }
            if !same {
                break;
            }
            count = count + 1;
        }
        let head = slice_subrange(s, 0, count);
        self.slice = slice_subrange(s, count, s.len());
        Some((key, head))
    }
}

impl<'a, T: PartialEq> Group<'a, T> {
    /// The next run: its element and how often it appears. Where the
    /// elements' `==` obeys its specification, the run is the longest prefix
    /// whose elements equal the first one, and grouping resumes right behind
    /// it.
    pub fn next(&mut self) -> (r: Option<(&'a T, usize)>)
        ensures
            old(self).slice@.len() == 0 ==> (r is None && final(self).slice@ == old(
                self,
            ).slice@),
            old(self).slice@.len() > 0 ==> (r matches Some(run) && *run.0 == old(self).slice@[0]
                && 1 <= run.1 <= old(self).slice@.len() && final(self).slice@ == old(
                self,
            ).slice@.subrange(run.1 as int, old(self).slice@.len() as int) && (
            T::obeys_eq_spec() ==> ((forall|j: int|
                1 <= j < run.1 ==> old(self).slice@[j].eq_spec(&old(self).slice@[0])) && (run.1
                < old(self).slice@.len() ==> !old(self).slice@[run.1 as int].eq_spec(
                &old(self).slice@[0],
            ))))),
    {
        let s: &'a [T] = self.slice;
        if s.len() == 0 {
            return None;
        }
        let first: &'a T = slice_index_get(s, 0);
        let mut count: usize = 1;
        while count < s.len() && *slice_index_get(s, count) == *first
            invariant
                1 <= count <= s@.len(),
                s@.len() > 0,
                *first == s@[0],
                T::obeys_eq_spec() ==> forall|j: int| 1 <= j < count ==> s@[j].eq_spec(&s@[0]),
            decreases s@.len() - count,
        {
            count = count + 1;
        }
        self.slice = slice_subrange(s, count, s.len());
        Some((first, count))
    }
}

/// How many UTF-16 code units one character takes: one below the
/// supplementary planes, two from them on.
pub open spec fn char_utf16_units(c: char) -> nat {
    if (c as nat) < 0x10000 {
        1
    } else {
        2
    }
}

/// The number of UTF-16 code units a character sequence would use.
pub open spec fn utf16_units(s: Seq<char>) -> nat
    decreases s.len(),
{
    if s.len() == 0 {
        0
    } else {
        utf16_units(s.drop_last()) + char_utf16_units(s.last())
    }
}

/// Each character takes at most two UTF-16 code units.
pub proof fn lemma_utf16_units_bound(s: Seq<char>)
    ensures
        utf16_units(s) <= 2 * s.len(),
    decreases s.len(),
{
    if s.len() > 0 {
        lemma_utf16_units_bound(s.drop_last());
    }
}

/// Additional methods for strings.
pub trait StrExt {
    /// The characters of the string.
    spec fn chars_spec(&self) -> Seq<char>;

    /// The number of code units this string would use if it was encoded in
    /// UTF-16. This runs in linear time.
    fn len_utf16(&self) -> (r: usize)
        requires
            2 * self.chars_spec().len() <= usize::MAX,
        ensures
            r == utf16_units(self.chars_spec()),
    ;
}

impl StrExt for str {
    open spec fn chars_spec(&self) -> Seq<char> {
        self@
    }

    fn len_utf16(&self) -> (r: usize) {
        let n = self.unicode_len();
        let mut total: usize = 0;
        let mut i: usize = 0;
        proof {
            lemma_utf16_units_bound(self@);
        }
        while i < n
            invariant
                i <= n,
                n == self@.len(),
                2 * self@.len() <= usize::MAX,
                total == utf16_units(self@.subrange(0, i as int)),
            decreases n - i,
        {
            proof {
                let pre = self@.subrange(0, i as int);
                let cur = self@.subrange(0, i as int + 1);
                assert(cur.drop_last() =~= pre);
                assert(cur.last() == self@[i as int]);
                lemma_utf16_units_bound(cur);
            }
            let c = self.get_char(i);
            if (c as u32) < 0x10000 {
                total = total + 1;
            } else {
                total = total + 2;
            }
            i = i + 1;
        }
        proof {
            assert(self@.subrange(0, self@.len() as int) =~= self@);
        }
        total
    }
}

/// Additional methods for options.
pub trait OptionExt<T: Ord> {
    /// The held value.
    spec fn held(&self) -> Option<T>;

    /// Sets `other` as the value if `self` is `None` or if it contains a
    /// value larger than `other`.
    fn set_min(&mut self, other: T)
        ensures
            T::obeys_partial_cmp_spec() ==> final(self).held() == (match old(self).held() {
                Option::None => Option::Some(other),
                Option::Some(x) => if other.partial_cmp_spec(&x) == Option::Some(Ordering::Less) {
                    Option::Some(other)
                } else {
                    Option::Some(x)
                },
            }),
    ;

    /// Sets `other` as the value if `self` is `None` or if it contains a
    /// value smaller than `other`.
    fn set_max(&mut self, other: T)
        ensures
            T::obeys_partial_cmp_spec() ==> final(self).held() == (match old(self).held() {
                Option::None => Option::Some(other),
                Option::Some(x) => if other.partial_cmp_spec(&x) == Option::Some(
                    Ordering::Greater,
                ) {
                    Option::Some(other)
                } else {
                    Option::Some(x)
                },
            }),
    ;
}

impl<T: Ord> OptionExt<T> for Option<T> {
    open spec fn held(&self) -> Option<T> {
        *self
    }

    fn set_min(&mut self, other: T) {
        let replace = match &*self {
            None => true,
            Some(x) => other < *x,
        };
        if replace {
            *self = Some(other);
        }
    }

    fn set_max(&mut self, other: T) {
        let replace = match &*self {
            None => true,
            Some(x) => other > *x,
        };
        if replace {
            *self = Some(other);
        }
    }
}

/// Additional methods for reference-counted pointers.
pub trait ArcExt<T: Clone> {
    /// The shared value.
    spec fn stored(&self) -> T;

    /// Takes the inner value if there is exactly one strong reference and
    /// clones it otherwise.
    fn take(self) -> (r: T)
        ensures
            cloned(self.stored(), r),
    ;
}

/// Relies on std's Arc::try_unwrap: the inner value comes out when this was
/// the only strong reference; otherwise the untouched pointer comes back.
#[verifier::external_body]
fn arc_try_unwrap<T>(v: Arc<T>) -> (r: Result<T, Arc<T>>)
    ensures
        match r {
            Ok(t) => t == v,
            Err(e) => e == v,
        },
{
    Arc::try_unwrap(v)
}

impl<T: Clone> ArcExt<T> for Arc<T> {
    open spec fn stored(&self) -> T {
        **self
    }

    fn take(self) -> (r: T) {
        match arc_try_unwrap(self) {
            Ok(v) => v,
            Err(rc) => (*rc).clone(),
        }
    }
}

/// Additional methods for ranges of positions.
pub trait RangeExt {
    /// Where `pos` falls relative to the range.
    spec fn locate_spec(&self, pos: usize) -> Ordering;

    /// Locates a position relative to a range: `Greater` before the start,
    /// `Equal` inside, `Less` from the end on — the answer a binary search
    /// over disjoint ranges needs to steer towards the range containing the
    /// position.
    fn locate(&self, pos: usize) -> (r: Ordering)
        ensures
            r == self.locate_spec(pos),
    ;
}

impl RangeExt for Range<usize> {
    open spec fn locate_spec(&self, pos: usize) -> Ordering {
        if pos < self.start {
            Ordering::Greater
        } else if pos < self.end {
            Ordering::Equal
        } else {
            Ordering::Less
        }
    }

    fn locate(&self, pos: usize) -> (r: Ordering) {
        if pos < self.start {
            Ordering::Greater
        } else if pos < self.end {
            Ordering::Equal
        } else {
            Ordering::Less
        }
    }
}

} // verus!
