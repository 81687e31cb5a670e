//! The element handle: one node of the UI object graph, with its identity
//! queries and the generic "acquire capability by id" operation.

use std::rc::Rc;
use vstd::prelude::*;

use crate::errors::{Result, error_from_native, is_pattern_not_found_error, pattern_not_found_error, spec_from_native};
use crate::native::{NativeResult, PatternRef};
use crate::patterns::{IUIPattern, cast_post};

verus! {

/// The UI object an element handle refers to: its identity, the outcome of
/// each property query it answers, and the capability objects it exposes,
/// keyed by capability id.
pub struct ElementObject {
    /// The identity of the underlying object: two handles refer to the same
    /// object exactly when their runtime ids are equal.
    pub runtime_id: u64,
    pub control_type: NativeResult<i32>,
    pub classname: NativeResult<String>,
    pub name: NativeResult<String>,
    pub patterns: Vec<(i32, PatternRef)>,
}

/// A handle to one UI object, sharing ownership of it.
pub struct UIElement {
    pub object: Rc<ElementObject>,
}

/// The first entry of an association list with the given key, if any.
pub open spec fn spec_assoc<V>(s: Seq<(i32, V)>, key: i32) -> Option<V>
    decreases s.len(),
{
    if s.len() == 0 {
        None
    } else if s[0].0 == key {
        Some(s[0].1)
    } else {
        spec_assoc(s.subrange(1, s.len() as int), key)
    }
}

/// A first-match scan that stopped at index `i` finds the entry there; one
/// that scanned the whole list finds nothing.
pub proof fn lemma_assoc_scan<V>(s: Seq<(i32, V)>, key: i32, i: int)
    requires
        0 <= i <= s.len(),
        forall|j: int| 0 <= j < i ==> s[j].0 != key,
    ensures
        i < s.len() && s[i].0 == key ==> spec_assoc(s, key) == Some(s[i].1),
        i == s.len() ==> spec_assoc(s, key) is None,
    decreases s.len(),
{
    if s.len() > 0 {
        if i > 0 {
            assert(s[0].0 != key);
            lemma_assoc_scan(s.subrange(1, s.len() as int), key, i - 1);
            assert(i < s.len() ==> s.subrange(1, s.len() as int)[i - 1] == s[i]);
        }
    }
}

/// The capability object the element exposes under the given id, if any.
pub open spec fn spec_lookup_pattern(e: UIElement, id: i32) -> Option<PatternRef> {
    spec_assoc(e.object.patterns@, id)
}

/// What acquiring capability `T` from element `e` returns: the element is
/// asked for the capability object registered under `T`'s id — absent means
/// a "not found" error — and the returned opaque reference then goes through
/// `T`'s identity cast, which fails closed.
pub open spec fn get_pattern_post<T: IUIPattern>(e: UIElement, r: Result<T>) -> bool {
    match spec_lookup_pattern(e, T::spec_pattern_id()) {
        Some(p) => cast_post::<T>(p, r),
        None => r matches Err(er) && is_pattern_not_found_error(er),
    }
}

impl UIElement {
    /// The identity of the underlying object.
    pub fn runtime_id(&self) -> (r: u64)
        ensures
            r == self.object.runtime_id,
    {
        self.object.runtime_id
    }

    /// Queries the element's control-type tag.
    pub fn get_control_type(&self) -> (r: Result<i32>)
        ensures
            r == match self.object.control_type {
                Ok(t) => Result::<i32>::Ok(t),
                Err(ne) => Result::<i32>::Err(spec_from_native(ne)),
            },
    {
        match &self.object.control_type {
            Ok(t) => Ok(*t),
            Err(ne) => Err(error_from_native(ne)),
        }
    }

    /// Queries the element's class name.
    pub fn get_classname(&self) -> (r: Result<String>)
        ensures
            r == match self.object.classname {
                Ok(s) => Result::<String>::Ok(s),
                Err(ne) => Result::<String>::Err(spec_from_native(ne)),
            },
    {
        match &self.object.classname {
            Ok(s) => Ok(s.clone()),
            Err(ne) => Err(error_from_native(ne)),
        }
    }

    /// Queries the element's display name.
    pub fn get_name(&self) -> (r: Result<String>)
        ensures
            r == match self.object.name {
                Ok(s) => Result::<String>::Ok(s),
                Err(ne) => Result::<String>::Err(spec_from_native(ne)),
            },
    {
        match &self.object.name {
            Ok(s) => Ok(s.clone()),
            Err(ne) => Err(error_from_native(ne)),
        }
    }

    /// Acquires the capability `T` from this element: looks up the
    /// capability object registered under `T`'s id and puts it through `T`'s
    /// identity cast.  A statically claimed capability is not a runtime
    /// guarantee: the lookup fails with a "not found" error when the element
    /// does not expose the capability at runtime.
    pub fn get_pattern<T: IUIPattern>(&self) -> (r: Result<T>)
        ensures
            get_pattern_post::<T>(*self, r),
    {
        let id = T::pattern_id();
        let patterns: &Vec<(i32, PatternRef)> = &self.object.patterns;
        let n = patterns.len();
        let mut i: usize = 0;
        while i < n
            invariant
                n == patterns@.len(),
                0 <= i <= n,
                forall|j: int| 0 <= j < i ==> patterns@[j].0 != id,
                id == T::spec_pattern_id(),
                patterns@ == self.object.patterns@,
            decreases n - i,
        {
            if patterns[i].0 == id {
                proof {
                    lemma_assoc_scan(patterns@, id, i as int);
                }
                return T::new(patterns[i].1.clone());
            }
            i = i + 1;
        }
        proof {
            lemma_assoc_scan(patterns@, id, n as int);
        }
        Err(pattern_not_found_error())
    }
}

impl Clone for UIElement {
    /// Cloning a handle shares the underlying object.
    fn clone(&self) -> (r: Self)
        ensures
            r == *self,
    {
        UIElement { object: self.object.clone() }
    }
}

} // verus!
