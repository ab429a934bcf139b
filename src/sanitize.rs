use std::collections::{BTreeMap, BTreeSet, HashMap, HashSet, VecDeque};
use vstd::prelude::*;

verus! {

/// How a value is made ready for reuse before it goes back to a pool.
///
/// A type whose values are reused as they are implements `sanitize` as
/// `Some(self)`; the default `sanitizes_to` already states that rule.
pub trait Sanitize: Sized {
    /// `out` is a result that sanitizing `self` may give: a value ready for
    /// reuse, or `None` when `self` is to be discarded. Unless a type states
    /// its own rule, the value is kept as it is.
    open spec fn sanitizes_to(self, out: Option<Self>) -> bool {
        out == Some(self)
    }

    /// Cleans `self` for reuse, or gives `None` to have it discarded.
    fn sanitize(self) -> (out: Option<Self>)
        ensures
            self.sanitizes_to(out),
    ;
}

/// A present value is sanitized by its own rule, and the option is discarded
/// when that rule discards it; an absent value is kept as it is.
impl<T: Sanitize> Sanitize for Option<T> {
    open spec fn sanitizes_to(self, out: Option<Self>) -> bool {
        match self {
            None => out == Some(None::<T>),
            Some(v) => match out {
                None => v.sanitizes_to(None),
                Some(None) => false,
                Some(Some(w)) => v.sanitizes_to(Some(w)),
            },
        }
    }

    fn sanitize(self) -> (out: Option<Self>) {
        match self {
            Some(v) => match v.sanitize() {
                Some(w) => Some(Some(w)),
                None => None,
            },
            None => Some(None),
        }
    }
}

/// A vector is emptied and kept.
impl<T> Sanitize for Vec<T> {
    open spec fn sanitizes_to(self, out: Option<Self>) -> bool {
        out is Some && out->0@ == Seq::<T>::empty()
    }

    fn sanitize(self) -> (out: Option<Self>) {
        let mut v = self;
        v.clear();
        Some(v)
    }
}

/// A double-ended queue is emptied and kept.
impl<T> Sanitize for VecDeque<T> {
    open spec fn sanitizes_to(self, out: Option<Self>) -> bool {
        out is Some && out->0@ == Seq::<T>::empty()
    }

    fn sanitize(self) -> (out: Option<Self>) {
        let mut v = self;
        v.clear();
        Some(v)
    }
}

/// A hash map is emptied and kept.
impl<K, V, S> Sanitize for HashMap<K, V, S> {
    open spec fn sanitizes_to(self, out: Option<Self>) -> bool {
        out is Some && out->0@ == Map::<K, V>::empty()
    }

    fn sanitize(self) -> (out: Option<Self>) {
        let mut m = self;
        m.clear();
        Some(m)
    }
}

/// A hash set is emptied and kept.
impl<T, S> Sanitize for HashSet<T, S> {
    open spec fn sanitizes_to(self, out: Option<Self>) -> bool {
        out is Some && out->0@ == Set::<T>::empty()
    }

    fn sanitize(self) -> (out: Option<Self>) {
        let mut s = self;
        s.clear();
        Some(s)
    }
}

/// An ordered map is emptied and kept.
impl<K, V> Sanitize for BTreeMap<K, V> {
    open spec fn sanitizes_to(self, out: Option<Self>) -> bool {
        out is Some && out->0@ == Map::<K, V>::empty()
    }

    fn sanitize(self) -> (out: Option<Self>) {
        let mut m = self;
        m.clear();
        Some(m)
    }
}

/// An ordered set is emptied and kept.
impl<T> Sanitize for BTreeSet<T> {
    open spec fn sanitizes_to(self, out: Option<Self>) -> bool {
        out is Some && out->0@ == Set::<T>::empty()
    }

    fn sanitize(self) -> (out: Option<Self>) {
        let mut s = self;
        s.clear();
        Some(s)
    }
}

/// Relies on `String::clear`, which removes all the contents of the string.
#[verifier::external_body]
fn clear_string(s: &mut String)
    ensures
        final(s)@ == Seq::<char>::empty(),
{
    s.clear()
}

/// A text buffer is emptied and kept.
impl Sanitize for String {
    open spec fn sanitizes_to(self, out: Option<Self>) -> bool {
        out is Some && out->0@ == Seq::<char>::empty()
    }

    fn sanitize(self) -> (out: Option<Self>) {
        let mut s = self;
        clear_string(&mut s);
        Some(s)
    }
}

/// A tuple of one is sanitized component by component, from the left; it is
/// discarded as soon as one component is, and the rest are not sanitized.
impl<A: Sanitize> Sanitize for (A,) {
    open spec fn sanitizes_to(self, out: Option<Self>) -> bool {
        match out {
            Some(o) => self.0.sanitizes_to(Some(o.0)),
            None => self.0.sanitizes_to(None),
        }
    }

    fn sanitize(self) -> (out: Option<Self>) {
        let (a,) = self;
        let a = match a.sanitize() {
            Some(x) => x,
            None => return None,
        };
        Some((a,))
    }
}

/// A tuple of two is sanitized component by component, from the left; it is
/// discarded as soon as one component is, and the rest are not sanitized.
impl<A: Sanitize, B: Sanitize> Sanitize for (A, B) {
    open spec fn sanitizes_to(self, out: Option<Self>) -> bool {
        match out {
            Some(o) => self.0.sanitizes_to(Some(o.0)) && self.1.sanitizes_to(Some(o.1)),
            None => self.0.sanitizes_to(None) || self.1.sanitizes_to(None),
        }
    }

    fn sanitize(self) -> (out: Option<Self>) {
        let (a, b) = self;
        let a = match a.sanitize() {
            Some(x) => x,
            None => return None,
        };
        let b = match b.sanitize() {
            Some(x) => x,
            None => return None,
        };
        Some((a, b))
    }
}

/// A tuple of three is sanitized component by component, from the left; it is
/// discarded as soon as one component is, and the rest are not sanitized.
impl<A: Sanitize, B: Sanitize, C: Sanitize> Sanitize for (A, B, C) {
    open spec fn sanitizes_to(self, out: Option<Self>) -> bool {
        match out {
            Some(o) => self.0.sanitizes_to(Some(o.0)) && self.1.sanitizes_to(Some(o.1)) && self.2.sanitizes_to(Some(o.2)),
            None => self.0.sanitizes_to(None) || self.1.sanitizes_to(None) || self.2.sanitizes_to(None),
        }
    }

    fn sanitize(self) -> (out: Option<Self>) {
        let (a, b, c) = self;
        let a = match a.sanitize() {
            Some(x) => x,
            None => return None,
        };
        let b = match b.sanitize() {
            Some(x) => x,
            None => return None,
        };
        let c = match c.sanitize() {
            Some(x) => x,
            None => return None,
        };
        Some((a, b, c))
    }
}

/// A tuple of four is sanitized component by component, from the left; it is
/// discarded as soon as one component is, and the rest are not sanitized.
impl<A: Sanitize, B: Sanitize, C: Sanitize, D: Sanitize> Sanitize for (A, B, C, D) {
    open spec fn sanitizes_to(self, out: Option<Self>) -> bool {
        match out {
            Some(o) => self.0.sanitizes_to(Some(o.0)) && self.1.sanitizes_to(Some(o.1)) && self.2.sanitizes_to(Some(o.2)) && self.3.sanitizes_to(Some(o.3)),
            None => self.0.sanitizes_to(None) || self.1.sanitizes_to(None) || self.2.sanitizes_to(None) || self.3.sanitizes_to(None),
        }
    }

    fn sanitize(self) -> (out: Option<Self>) {
        let (a, b, c, d) = self;
        let a = match a.sanitize() {
            Some(x) => x,
            None => return None,
        };
        let b = match b.sanitize() {
            Some(x) => x,
            None => return None,
        };
        let c = match c.sanitize() {
            Some(x) => x,
            None => return None,
        };
        let d = match d.sanitize() {
            Some(x) => x,
            None => return None,
        };
        Some((a, b, c, d))
    }
}

/// A tuple of five is sanitized component by component, from the left; it is
/// discarded as soon as one component is, and the rest are not sanitized.
impl<A: Sanitize, B: Sanitize, C: Sanitize, D: Sanitize, E: Sanitize> Sanitize for (A, B, C, D, E) {
    open spec fn sanitizes_to(self, out: Option<Self>) -> bool {
        match out {
            Some(o) => self.0.sanitizes_to(Some(o.0)) && self.1.sanitizes_to(Some(o.1)) && self.2.sanitizes_to(Some(o.2)) && self.3.sanitizes_to(Some(o.3)) && self.4.sanitizes_to(Some(o.4)),
            None => self.0.sanitizes_to(None) || self.1.sanitizes_to(None) || self.2.sanitizes_to(None) || self.3.sanitizes_to(None) || self.4.sanitizes_to(None),
        }
    }

    fn sanitize(self) -> (out: Option<Self>) {
        let (a, b, c, d, e) = self;
        let a = match a.sanitize() {
            Some(x) => x,
            None => return None,
        };
        let b = match b.sanitize() {
            Some(x) => x,
            None => return None,
        };
        let c = match c.sanitize() {
            Some(x) => x,
            None => return None,
        };
        let d = match d.sanitize() {
            Some(x) => x,
            None => return None,
        };
        let e = match e.sanitize() {
            Some(x) => x,
            None => return None,
        };
        Some((a, b, c, d, e))
    }
}

/// A tuple of six is sanitized component by component, from the left; it is
/// discarded as soon as one component is, and the rest are not sanitized.
impl<A: Sanitize, B: Sanitize, C: Sanitize, D: Sanitize, E: Sanitize, F: Sanitize> Sanitize for (A, B, C, D, E, F) {
    open spec fn sanitizes_to(self, out: Option<Self>) -> bool {
        match out {
            Some(o) => self.0.sanitizes_to(Some(o.0)) && self.1.sanitizes_to(Some(o.1)) && self.2.sanitizes_to(Some(o.2)) && self.3.sanitizes_to(Some(o.3)) && self.4.sanitizes_to(Some(o.4)) && self.5.sanitizes_to(Some(o.5)),
            None => self.0.sanitizes_to(None) || self.1.sanitizes_to(None) || self.2.sanitizes_to(None) || self.3.sanitizes_to(None) || self.4.sanitizes_to(None) || self.5.sanitizes_to(None),
        }
    }

    fn sanitize(self) -> (out: Option<Self>) {
        let (a, b, c, d, e, f) = self;
        let a = match a.sanitize() {
            Some(x) => x,
            None => return None,
        };
        let b = match b.sanitize() {
            Some(x) => x,
            None => return None,
        };
        let c = match c.sanitize() {
            Some(x) => x,
            None => return None,
        };
        let d = match d.sanitize() {
            Some(x) => x,
            None => return None,
        };
        let e = match e.sanitize() {
            Some(x) => x,
            None => return None,
        };
        let f = match f.sanitize() {
            Some(x) => x,
            None => return None,
        };
        Some((a, b, c, d, e, f))
    }
}

} // verus!
