//! Console commands: an entry point, named parameters, and a handler that
//! turns the bound arguments into an action.

use vstd::prelude::*;
use crate::text::{string_push, string_views};

verus! {

/// Why a console command could not be turned into an action.
#[derive(Debug, Clone, Copy, PartialEq, Eq, Structural)]
pub enum ParseError {
    BadKey,
    BadValue,
    WrongArgumentCount,
    CommandNotFound,
    NotImplemented,
}

/// The value bound to `key` by a list of bindings: the last binding of it.
pub open spec fn lookup(entries: Seq<(Seq<char>, Seq<char>)>, key: Seq<char>) -> Option<Seq<char>>
    decreases entries.len(),
{
    if entries.len() == 0 {
        None
    } else if entries.last().0 == key {
        Some(entries.last().1)
    } else {
        lookup(entries.drop_last(), key)
    }
}

/// Arguments bound to parameter names.
///
/// The bindings are a list in which the latest binding of a name wins:
/// Verus knows no order or hash for `String`, so a map keyed by strings
/// would leave every contract below with nothing to rest on.
#[derive(Debug, Clone)]
pub struct ArgsMap {
    entries: Vec<(String, String)>,
}

impl View for ArgsMap {
    type V = Seq<(Seq<char>, Seq<char>)>;

    closed spec fn view(&self) -> Seq<(Seq<char>, Seq<char>)> {
        self.entries@.map_values(|e: (String, String)| (e.0@, e.1@))
    }
}

impl ArgsMap {
    /// No bindings.
    pub fn new() -> (m: Self)
        ensures
            forall|k: Seq<char>| lookup(m@, k) is None,
            m@ == Seq::<(Seq<char>, Seq<char>)>::empty(),
    {
        let m = ArgsMap { entries: Vec::new() };
        assert(m@ =~= Seq::<(Seq<char>, Seq<char>)>::empty());
        m
    }

    /// Binds `key` to `value`, replacing any earlier binding of `key`.
    pub fn insert(&mut self, key: String, value: String)
        ensures
            final(self)@ == old(self)@.push((key@, value@)),
            lookup(final(self)@, key@) == Some(value@),
            forall|k: Seq<char>| k != key@ ==> lookup(final(self)@, k) == lookup(old(self)@, k),
    {
        let ghost kv = (key@, value@);
        self.entries.push((key, value));
        assert(self@ =~= old(self)@.push(kv));
        assert(self@.drop_last() =~= old(self)@);
    }

    /// The value bound to `key`, if any.
    pub fn get(&self, key: &str) -> (r: Option<&String>)
        ensures
            match r {
                Some(v) => lookup(self@, key@) == Some(v@),
                None => lookup(self@, key@) is None,
            },
    {
        let k = key.to_owned();
        let mut i: usize = self.entries.len();
        assert(self@.take(i as int) =~= self@);
        while i > 0
            invariant
                i <= self.entries@.len(),
                k@ == key@,
                lookup(self@, key@) == lookup(self@.take(i as int), key@),
            decreases i,
        {
            let ghost t = self@.take(i as int);
            assert(t.drop_last() =~= self@.take(i - 1));
            if self.entries[i - 1].0 == k {
                return Some(&self.entries[i - 1].1);
            }
            i = i - 1;
        }
        None
    }
}

/// A parameter paired with its argument, when there are that many of each.
pub open spec fn partial_pair(params: Seq<Seq<char>>, args: Seq<Seq<char>>, i: int) -> (Option<Seq<char>>, Option<Seq<char>>) {
    (
        if i < params.len() { Some(params[i]) } else { None },
        if i < args.len() { Some(args[i]) } else { None },
    )
}

/// The characters of an optional string.
pub open spec fn opt_view(o: Option<String>) -> Option<Seq<char>> {
    match o {
        Some(s) => Some(s@),
        None => None,
    }
}

/// The larger of two lengths.
pub open spec fn max_len(a: nat, b: nat) -> nat {
    if a < b { b } else { a }
}

/// The bindings of the first arguments to the parameters, in order.
pub open spec fn bind_args(params: Seq<Seq<char>>, args: Seq<Seq<char>>) -> Seq<(Seq<char>, Seq<char>)> {
    Seq::new(params.len(), |i: int| (params[i], args[i]))
}

/// An entry point followed by ` [param]` for each parameter.
pub open spec fn suggestion(entrypoint: Seq<char>, params: Seq<Seq<char>>) -> Seq<char>
    decreases params.len(),
{
    if params.len() == 0 {
        entrypoint
    } else {
        suggestion(entrypoint, params.drop_last()) + seq![' ', '['] + params.last() + seq![']']
    }
}

/// A console command: the word that invokes it, its parameters, and the
/// handler that makes an action from the arguments bound to them.
pub struct Command<F> {
    pub entrypoint: String,
    pub params: Vec<String>,
    pub func: F,
}

impl<F> Command<F> {
    /// A command from its entry point, parameter names and handler.
    pub fn new(entrypoint: &str, params: Vec<&str>, f: F) -> (c: Self)
        ensures
            c.entrypoint@ == entrypoint@,
            string_views(c.params@) == params@.map_values(|p: &str| p@),
            c.func == f,
    {
        let mut ps: Vec<String> = Vec::new();
        let mut i: usize = 0;
        while i < params.len()
            invariant
                i <= params@.len(),
                string_views(ps@) == params@.take(i as int).map_values(|p: &str| p@),
            decreases params.len() - i,
        {
            let ghost before = string_views(ps@);
            ps.push(params[i].to_owned());
            assert(string_views(ps@) =~= before.push(params@[i as int]@));
            assert(params@.take(i + 1).map_values(|p: &str| p@) =~= params@.take(i as int).map_values(|p: &str| p@).push(params@[i as int]@));
            i = i + 1;
        }
        assert(params@.take(params@.len() as int) =~= params@);
        Command { entrypoint: entrypoint.to_owned(), params: ps, func: f }
    }

    /// The entry point followed by ` [param]` for each parameter, showing
    /// how the command is used.
    pub fn to_suggestion(&self) -> (s: String)
        ensures
            s@ == suggestion(self.entrypoint@, string_views(self.params@)),
    {
        let mut ret = self.entrypoint.clone();
        let mut i: usize = 0;
        while i < self.params.len()
            invariant
                i <= self.params@.len(),
                ret@ == suggestion(self.entrypoint@, string_views(self.params@).take(i as int)),
            decreases self.params.len() - i,
        {
            let ghost ps = string_views(self.params@);
            assert(ps.take(i + 1).drop_last() =~= ps.take(i as int));
            string_push(&mut ret, ' ');
            string_push(&mut ret, '[');
            ret.append(self.params[i].as_str());
            string_push(&mut ret, ']');
            assert(ret@ =~= suggestion(self.entrypoint@, ps.take(i as int)) + seq![' ', '['] + ps[i as int] + seq![']']);
            i = i + 1;
        }
        assert(string_views(self.params@).take(self.params@.len() as int) =~= string_views(self.params@));
        ret
    }

    /// Pairs each parameter with its argument, as far as the longer of the
    /// two lists goes; a missing one is `None`.
    pub fn parse_partial_args(&self, args: &[String]) -> (r: Vec<(Option<String>, Option<String>)>)
        ensures
            r@.len() == max_len(self.params@.len(), args@.len()),
            forall|i: int| 0 <= i < r@.len() ==> (#[trigger] opt_view(r@[i].0), opt_view(r@[i].1))
                == partial_pair(string_views(self.params@), string_views(args@), i),
    {
        let mut ret: Vec<(Option<String>, Option<String>)> = Vec::new();
        let n = if self.params.len() < args.len() { args.len() } else { self.params.len() };
        let mut i: usize = 0;
        while i < n
            invariant
                n == max_len(self.params@.len(), args@.len()),
                i <= n,
                ret@.len() == i,
                forall|k: int| 0 <= k < i ==> (#[trigger] opt_view(ret@[k].0), opt_view(ret@[k].1))
                    == partial_pair(string_views(self.params@), string_views(args@), k),
            decreases n - i,
        {
            let p = if i < self.params.len() { Some(self.params[i].clone()) } else { None };
            let a = if i < args.len() { Some(args[i].clone()) } else { None };
            ret.push((p, a));
            i = i + 1;
        }
        ret
    }

    /// Binds the arguments to the parameters, in order; `None` if there are
    /// fewer arguments than parameters. Extra arguments are ignored.
    pub fn parse_complete_args(&self, args: &[String]) -> (r: Option<ArgsMap>)
        ensures
            args@.len() < self.params@.len() ==> r is None,
            args@.len() >= self.params@.len() ==> (r matches Some(m) && m@ == bind_args(
                string_views(self.params@),
                string_views(args@),
            )),
    {
        let mut ret = ArgsMap::new();
        let mut i: usize = 0;
        while i < self.params.len()
            invariant
                i <= self.params@.len(),
                i <= args@.len() || i == 0,
                ret@ == bind_args(string_views(self.params@).take(i as int), string_views(args@)),
            decreases self.params.len() - i,
        {
            if i >= args.len() {
                return None;
            }
            let ghost before = ret@;
            ret.insert(self.params[i].clone(), args[i].clone());
            assert(ret@ =~= bind_args(string_views(self.params@).take(i + 1), string_views(args@)));
            i = i + 1;
        }
        assert(string_views(self.params@).take(self.params@.len() as int) =~= string_views(self.params@));
        Some(ret)
    }

    /// Binds the arguments and runs the handler on them; fails with
    /// [ParseError::WrongArgumentCount] when there are too few arguments.
    pub fn parse<A>(&self, args: &[String]) -> (r: Result<A, ParseError>)
        where
            F: Fn(&ArgsMap) -> Result<A, ParseError>,
        requires
            forall|m: &ArgsMap| call_requires(self.func, (m,)),
        ensures
            args@.len() < self.params@.len() ==> r == Err::<A, ParseError>(ParseError::WrongArgumentCount),
            args@.len() >= self.params@.len() ==> exists|m: &ArgsMap| {
                &&& m@ == bind_args(string_views(self.params@), string_views(args@))
                &&& call_ensures(self.func, (m,), r)
            },
    {
        match self.parse_complete_args(args) {
            Some(m) => (self.func)(&m),
            None => Err(ParseError::WrongArgumentCount),
        }
    }
}

} // verus!
