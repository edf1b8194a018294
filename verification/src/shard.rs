use vstd::prelude::*;
use crate::error::StoreError;

verus! {

/// Characters allowed in a shard or replica name: ASCII lowercase letters,
/// digits and underscore.
pub open spec fn is_name_char(c: char) -> bool {
    (97 <= c as u32 && c as u32 <= 122)  // 'a' ..= 'z'
    || (48 <= c as u32 && c as u32 <= 57)  // '0' ..= '9'
    || c == '_'
}

/// A valid shard name: nonempty, at most 30 characters, made of name
/// characters, and starting with a letter.
pub open spec fn valid_shard_name(s: Seq<char>) -> bool {
    &&& 0 < s.len() <= 30
    &&& 97 <= s[0] as u32 <= 122
    &&& forall|i: int| 0 <= i < s.len() ==> is_name_char(#[trigger] s[i])
}

/// The name of the primary shard. Every deployment has it; chains that are
/// not mapped to any shard fall back to it.
pub open spec fn primary_name() -> Seq<char> {
    seq!['p', 'r', 'i', 'm', 'a', 'r', 'y']
}

/// The identity of one shard: a validated name.
pub struct Shard {
    name: String,
}

impl Shard {
    /// A shard is well formed when its name passed validation.
    pub open spec fn wf(&self) -> bool {
        valid_shard_name(self@)
    }

    pub closed spec fn view(&self) -> Seq<char> {
        self.name@
    }

    /// Validate `name` and wrap it. Rejecting an invalid name here is what
    /// lets every later consumer assume shard names are identifiers.
    pub fn new(name: String) -> (r: Result<Shard, StoreError>)
        ensures
            r is Ok <==> valid_shard_name(name@),
            r matches Ok(s) ==> s@ == name@ && s.wf(),
            r matches Err(e) ==> e matches StoreError::InvalidName(n) && n@ == name@,
    {
        if Self::name_is_valid(name.as_str()) {
            Ok(Shard { name })
        } else {
            Err(StoreError::InvalidName(name))
        }
    }

    /// The shard every deployment must have.
    pub fn primary() -> (r: Shard)
        ensures
            r@ == primary_name(),
            r.wf(),
    {
        let name: String = String::from_str("primary");
        proof {
            reveal_strlit("primary");
            assert(name@ =~= primary_name());
        }
        Shard { name }
    }

    pub fn as_str(&self) -> (r: &str)
        ensures
            r@ == self@,
    {
        self.name.as_str()
    }

    pub fn clone(&self) -> (r: Shard)
        ensures
            r@ == self@,
            r.wf() == self.wf(),
    {
        Shard { name: self.name.clone() }
    }

    /// Whether this is the primary shard.
    pub fn is_primary(&self) -> (r: bool)
        ensures
            r == (self@ == primary_name()),
    {
        let p = Shard::primary();
        self.name == p.name
    }

    /// Check that every character of `name` is allowed, that it starts with
    /// a letter, and that the length is within bounds.
    fn name_is_valid(name: &str) -> (r: bool)
        ensures
            r == valid_shard_name(name@),
    {
        let len = name.unicode_len();
        if len == 0 || len > 30 {
            return false;
        }
        let first = name.get_char(0);
        let fu = first as u32;
        if !(97 <= fu && fu <= 122) {
            return false;
        }
        let mut i: usize = 0;
        while i < len
            invariant
                len == name@.len(),
                0 <= i <= len,
                forall|j: int| 0 <= j < i ==> is_name_char(#[trigger] name@[j]),
            decreases len - i,
        {
            let c = name.get_char(i);
            let u = c as u32;
            if !((97 <= u && u <= 122) || (48 <= u && u <= 57) || c == '_') {
                return false;
            }
            i += 1;
        }
        true
    }
}

impl PartialEq for Shard {
    fn eq(&self, other: &Shard) -> (r: bool) {
        self.name == other.name
    }
}

impl Eq for Shard {}

impl vstd::std_specs::cmp::PartialEqSpecImpl for Shard {
    open spec fn obeys_eq_spec() -> bool {
        true
    }

    open spec fn eq_spec(&self, other: &Shard) -> bool {
        self@ == other@
    }
}

} // verus!
