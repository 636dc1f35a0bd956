use vstd::prelude::*;
use vstd::string::StringExecFns;

verus! {

/// One value in a command's argument bag.
///
/// Values are plain data: a string, an integer, a boolean, or an opaque
/// handle identified by a numeric id that only collaborators interpret.
#[derive(Debug, Clone, PartialEq)]
pub enum Data {
    Str(String),
    Int(i64),
    Bool(bool),
    Handle(u64),
}

/// Why a typed argument accessor failed: the key (or position) was
/// absent, or it was bound to a value of another shape.
#[derive(Debug, Clone, Copy, PartialEq, Eq, Structural)]
pub enum ArgError {
    Missing,
    WrongShape,
}

/// The unit of control flow: an immutable name token, an ordered list of
/// positional values, a mapping of named values (an association list in
/// which the first binding of a key wins), and an optional correlation id
/// that collaborators, not the dispatcher, consume.
#[derive(Debug, Clone, PartialEq)]
pub struct Cmd {
    pub name: String,
    pub args: Vec<Data>,
    pub named: Vec<(String, Data)>,
    pub id: Option<u64>,
}

/// The first binding of `key` in the named-argument list, if any.
pub open spec fn lookup(named: Seq<(String, Data)>, key: Seq<char>) -> Option<Data>
    decreases named.len(),
{
    if named.len() == 0 {
        None
    } else if named[0].0@ == key {
        Some(named[0].1)
    } else {
        lookup(named.drop_first(), key)
    }
}

/// The boolean read of a named argument: `true` exactly when the key is
/// bound and bound to `Data::Bool(true)`. A missing key or a value of
/// another shape reads as `false`; this is the documented default for
/// omitted flags.
pub open spec fn spec_flag(named: Seq<(String, Data)>, key: Seq<char>) -> bool {
    match lookup(named, key) {
        Some(Data::Bool(b)) => b,
        _ => false,
    }
}

/// True exactly when the string equals the literal, character for
/// character.
pub fn text_is(s: &String, t: &str) -> (r: bool)
    ensures
        r == (s@ == t@),
{
    let u = String::from_str(t);
    s.eq(&u)
}

impl Cmd {
    /// A command with the given name and no arguments.
    pub fn new(name: &str) -> (r: Cmd)
        ensures
            r.name@ == name@,
            r.args@ =~= Seq::<Data>::empty(),
            r.named@ =~= Seq::<(String, Data)>::empty(),
            r.id is None,
    {
        Cmd { name: String::from_str(name), args: Vec::new(), named: Vec::new(), id: None }
    }

    /// The same command with one more named argument appended.
    pub fn with_named(self, key: &str, value: Data) -> (r: Cmd)
        ensures
            r.name == self.name,
            r.args == self.args,
            r.id == self.id,
            r.named@.len() == self.named@.len() + 1,
            r.named@.subrange(0, self.named@.len() as int) =~= self.named@,
            r.named@[self.named@.len() as int].0@ == key@,
            r.named@[self.named@.len() as int].1 == value,
    {
        let mut named = self.named;
        named.push((String::from_str(key), value));
        Cmd { name: self.name, args: self.args, named, id: self.id }
    }

    /// Whether the command's name is exactly `n`.
    pub fn name_is(&self, n: &str) -> (r: bool)
        ensures
            r == (self.name@ == n@),
    {
        text_is(&self.name, n)
    }

    /// The first value bound to `key`, if any.
    pub fn get(&self, key: &str) -> (r: Option<&Data>)
        ensures
            match r {
                Some(d) => lookup(self.named@, key@) == Some(*d),
                None => lookup(self.named@, key@) is None,
            },
    {
        let mut i: usize = 0;
        proof {
            assert(self.named@.skip(0) =~= self.named@);
        }
        while i < self.named.len()
            invariant
                i <= self.named@.len(),
                lookup(self.named@, key@) == lookup(self.named@.skip(i as int), key@),
            decreases self.named@.len() - i,
        {
            if text_is(&self.named[i].0, key) {
                return Some(&self.named[i].1);
            }
            i = i + 1;
            proof {
                assert(self.named@.skip((i - 1) as int).drop_first() =~= self.named@.skip(i as int));
            }
        }
        None
    }

    /// The boolean read of a named argument, `false` when the key is
    /// missing or bound to a value of another shape.
    pub fn flag(&self, key: &str) -> (r: bool)
        ensures
            r == spec_flag(self.named@, key@),
    {
        match self.get(key) {
            Some(Data::Bool(b)) => *b,
            _ => false,
        }
    }

    /// The string bound to `key`, or the argument error saying why there
    /// is none.
    pub fn str_named(&self, key: &str) -> (r: Result<String, ArgError>)
        ensures
            match r {
                Ok(s) => lookup(self.named@, key@) matches Some(Data::Str(t)) && t@ == s@,
                Err(ArgError::Missing) => lookup(self.named@, key@) is None,
                Err(ArgError::WrongShape) => lookup(self.named@, key@) matches Some(d)
                    && !(d is Str),
            },
    {
        match self.get(key) {
            Some(Data::Str(s)) => Ok(s.clone()),
            Some(_) => Err(ArgError::WrongShape),
            None => Err(ArgError::Missing),
        }
    }

    /// The integer bound to `key`, or the argument error saying why there
    /// is none.
    pub fn int_named(&self, key: &str) -> (r: Result<i64, ArgError>)
        ensures
            match r {
                Ok(n) => lookup(self.named@, key@) == Some(Data::Int(n)),
                Err(ArgError::Missing) => lookup(self.named@, key@) is None,
                Err(ArgError::WrongShape) => lookup(self.named@, key@) matches Some(d)
                    && !(d is Int),
            },
    {
        match self.get(key) {
            Some(Data::Int(n)) => Ok(*n),
            Some(_) => Err(ArgError::WrongShape),
            None => Err(ArgError::Missing),
        }
    }

    /// The boolean bound to `key`, or the argument error saying why there
    /// is none. Unlike [`Cmd::flag`], a missing or ill-shaped binding is
    /// an error, not a default.
    pub fn bool_named(&self, key: &str) -> (r: Result<bool, ArgError>)
        ensures
            match r {
                Ok(b) => lookup(self.named@, key@) == Some(Data::Bool(b)),
                Err(ArgError::Missing) => lookup(self.named@, key@) is None,
                Err(ArgError::WrongShape) => lookup(self.named@, key@) matches Some(d)
                    && !(d is Bool),
            },
    {
        match self.get(key) {
            Some(Data::Bool(b)) => Ok(*b),
            Some(_) => Err(ArgError::WrongShape),
            None => Err(ArgError::Missing),
        }
    }

    /// The string at position `i`, or the argument error saying why there
    /// is none.
    pub fn str_at(&self, i: usize) -> (r: Result<String, ArgError>)
        ensures
            match r {
                Ok(s) => i < self.args@.len() && (self.args@[i as int] matches Data::Str(t)
                    && t@ == s@),
                Err(ArgError::Missing) => i >= self.args@.len(),
                Err(ArgError::WrongShape) => i < self.args@.len()
                    && !(self.args@[i as int] is Str),
            },
    {
        if i < self.args.len() {
            match &self.args[i] {
                Data::Str(s) => Ok(s.clone()),
                _ => Err(ArgError::WrongShape),
            }
        } else {
            Err(ArgError::Missing)
        }
    }
}

} // verus!
