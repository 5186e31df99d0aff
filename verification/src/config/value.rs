//! The dynamically typed value that options arrive as, with the coercions
//! that read a typed value out of it.
use crate::text::str_eq;
use vstd::prelude::*;
use vstd::string::*;

verus! {

/// A value of the host's dynamic type. `Other` stands for every kind that
/// no option of the plugin accepts, such as a float or a function.
#[derive(Debug)]
pub enum DynValue {
    Nil,
    Bool(bool),
    Int(i64),
    Str(String),
    List(Vec<DynValue>),
    Dict(Vec<(String, DynValue)>),
    Other,
}

/// The value of the first entry with the given key.
pub open spec fn lookup(entries: Seq<(String, DynValue)>, key: Seq<char>) -> Option<DynValue>
    decreases entries.len(),
{
    if entries.len() == 0 {
        None
    } else if entries[0].0@ == key {
        Some(entries[0].1)
    } else {
        lookup(entries.drop_first(), key)
    }
}

impl DynValue {
    /// The value under `key` where `self` is a mapping that has the key.
    pub open spec fn get_spec(self, key: Seq<char>) -> Option<DynValue> {
        match self {
            DynValue::Dict(entries) => lookup(entries@, key),
            _ => None,
        }
    }

    /// The value under `key` where `self` is a mapping that has the key; of
    /// several entries with the key the first counts.
    pub fn get(&self, key: &str) -> (r: Option<&DynValue>)
        ensures
            match r {
                Some(v) => self.get_spec(key@) == Some(*v),
                None => self.get_spec(key@) is None,
            },
    {
        match self {
            DynValue::Dict(entries) => {
                let mut i: usize = 0;
                proof {
                    assert(entries@.skip(0) =~= entries@);
                }
                while i < entries.len()
                    invariant
                        i <= entries.len(),
                        self.get_spec(key@) == lookup(entries@, key@),
                        lookup(entries@, key@) == lookup(entries@.skip(i as int), key@),
                    decreases entries.len() - i,
                {
                    proof {
                        assert(entries@.skip(i as int)[0] == entries@[i as int]);
                    }
                    if str_eq(entries[i].0.as_str(), key) {
                        return Some(&entries[i].1);
                    }
                    proof {
                        assert(entries@.skip(i as int).drop_first() =~= entries@.skip(i + 1));
                    }
                    i = i + 1;
                }
                None
            },
            _ => None,
        }
    }

    /// The truth value where `self` is one.
    pub open spec fn bool_spec(self) -> Option<bool> {
        match self {
            DynValue::Bool(b) => Some(b),
            _ => None,
        }
    }

    /// The truth value where `self` is one.
    pub fn as_bool(&self) -> (r: Option<bool>)
        ensures
            r == self.bool_spec(),
    {
        match self {
            DynValue::Bool(b) => Some(*b),
            _ => None,
        }
    }

    /// The text where `self` is one.
    pub open spec fn str_spec(self) -> Option<Seq<char>> {
        match self {
            DynValue::Str(s) => Some(s@),
            _ => None,
        }
    }

    /// The text where `self` is one.
    pub fn as_str(&self) -> (r: Option<&str>)
        ensures
            match r {
                Some(s) => self.str_spec() == Some(s@),
                None => self.str_spec() is None,
            },
    {
        match self {
            DynValue::Str(s) => Some(s.as_str()),
            _ => None,
        }
    }

    /// The number where `self` is an integer that a `usize` holds.
    pub open spec fn usize_spec(self) -> Option<usize> {
        match self {
            DynValue::Int(n) => if 0 <= n <= usize::MAX {
                Some(n as usize)
            } else {
                None
            },
            _ => None,
        }
    }

    /// The number where `self` is an integer that a `usize` holds.
    pub fn as_usize(&self) -> (r: Option<usize>)
        ensures
            r == self.usize_spec(),
    {
        match self {
            DynValue::Int(n) => {
                if *n >= 0 && *n as u64 <= usize::MAX as u64 {
                    Some(*n as usize)
                } else {
                    None
                }
            },
            _ => None,
        }
    }

    /// The items where `self` is a list.
    pub open spec fn list_spec(self) -> Option<Seq<DynValue>> {
        match self {
            DynValue::List(items) => Some(items@),
            _ => None,
        }
    }

    /// The items where `self` is a list.
    pub fn as_list(&self) -> (r: Option<&Vec<DynValue>>)
        ensures
            match r {
                Some(items) => self.list_spec() == Some(items@),
                None => self.list_spec() is None,
            },
    {
        match self {
            DynValue::List(items) => Some(items),
            _ => None,
        }
    }

    /// Whether `self` is a mapping.
    pub fn is_dict(&self) -> (r: bool)
        ensures
            r == (self is Dict),
    {
        match self {
            DynValue::Dict(_) => true,
            _ => false,
        }
    }
}

} // verus!
