//! The dynamic function registry: a table from symbolic name to an opaque
//! native callable, written by explicit registration and read by late-bound
//! call sites.
//!
//! Registration overwrites any earlier entry under the same name
//! (`lemma_register_override`). A lookup copies the callable handle out, so
//! an invocation never runs under the table's serialization lock; the
//! invocation itself crosses the native boundary outside this crate and hands
//! its packed result back to `decode_single_return`.

use vstd::prelude::*;
use crate::params::{ParamValue, ParameterList, PackedBuffer, spec_encode, spec_decode, unpack};

verus! {

/// A typed stand-in for a host native entry point: an opaque token chosen by
/// the host, plus the signature tag the registrant declared, so that a call
/// site can detect signature drift before invoking.
#[derive(Clone, Copy, PartialEq, Eq, Structural, Debug)]
pub struct NativeCallable {
    /// An opaque token standing for the host's native entry point.
    pub token: u64,
    /// The signature tag the registrant declared for the callable.
    pub signature: u32,
}

/// The name-to-callable table. Its model is the map from each registered
/// name to the callable registered under it last.
pub struct FunctionRegistry {
    entries: Vec<(String, NativeCallable)>,
}

/// The map a registration history denotes: later entries shadow earlier
/// ones.
pub open spec fn entries_map(s: Seq<(String, NativeCallable)>) -> Map<Seq<char>, NativeCallable>
    decreases s.len(),
{
    if s.len() == 0 {
        Map::<Seq<char>, NativeCallable>::empty()
    } else {
        entries_map(s.drop_last()).insert(s.last().0@, s.last().1)
    }
}

impl View for FunctionRegistry {
    type V = Map<Seq<char>, NativeCallable>;

    closed spec fn view(&self) -> Map<Seq<char>, NativeCallable> {
        entries_map(self.entries@)
    }
}

/// Registry override law: registering a name twice leaves only the second
/// callable reachable under that name.
pub proof fn lemma_register_override(
    m: Map<Seq<char>, NativeCallable>,
    name: Seq<char>,
    first: NativeCallable,
    second: NativeCallable,
)
    ensures
        m.insert(name, first).insert(name, second) == m.insert(name, second),
        m.insert(name, first).insert(name, second)[name] == second,
{
    assert(m.insert(name, first).insert(name, second) =~= m.insert(name, second));
}

impl FunctionRegistry {
    /// An empty table.
    pub fn new() -> (r: FunctionRegistry)
        ensures
            r@ == Map::<Seq<char>, NativeCallable>::empty(),
    {
        FunctionRegistry { entries: Vec::new() }
    }

    /// Stores `callable` under `name`, overwriting any prior entry for the
    /// same name.
    pub fn register(&mut self, name: String, callable: NativeCallable)
        ensures
            final(self)@ == old(self)@.insert(name@, callable),
    {
        self.entries.push((name, callable));
        proof {
            assert(self.entries@.drop_last() =~= old(self).entries@);
            assert(self@ =~= old(self)@.insert(name@, callable));
        }
    }

    /// Copies out the callable registered under `name` last, if any. The
    /// caller invokes it after this borrow ends, so no lock is held across
    /// the invoked call.
    pub fn lookup(&self, name: &String) -> (r: Option<NativeCallable>)
        ensures
            self@.contains_key(name@) ==> r == Some(self@[name@]),
            !self@.contains_key(name@) ==> r is None,
    {
        let ghost s = self.entries@;
        let mut i: usize = self.entries.len();
        proof {
            assert(s.take(i as int) =~= s);
        }
        while i > 0
            invariant
                i <= s.len(),
                s == self.entries@,
                entries_map(s).contains_key(name@) == entries_map(s.take(i as int)).contains_key(
                    name@,
                ),
                entries_map(s).contains_key(name@) ==> entries_map(s)[name@] == entries_map(
                    s.take(i as int),
                )[name@],
            decreases i,
        {
            i = i - 1;
            let hit: bool = self.entries[i].0 == *name;
            proof {
                assert(s.take(i as int + 1).drop_last() =~= s.take(i as int));
                assert(s.take(i as int + 1).last() == s[i as int]);
            }
            if hit {
                proof {
                    assert(entries_map(s.take(i as int + 1)).contains_key(name@));
                    assert(entries_map(s.take(i as int + 1))[name@] == s[i as int].1);
                }
                return Some(self.entries[i].1);
            }
        }
        proof {
            assert(s.take(0) =~= Seq::<(String, NativeCallable)>::empty());
            assert(!entries_map(s.take(0)).contains_key(name@));
        }
        None
    }

    /// Resolves `name` and packs `args` in one step: the callable handle is
    /// copied out of the table and the packed buffer built, ready to be
    /// invoked outside any serialization of the table. Yields nothing when
    /// the name was never registered: that is a configuration fault the
    /// caller must treat as fatal.
    pub fn prepare_invoke(&self, name: &String, args: &ParameterList) -> (r: Option<
        (NativeCallable, PackedBuffer),
    >)
        ensures
            self@.contains_key(name@) ==> (r matches Some(p) && p.0 == self@[name@] && p.1@
                == spec_encode(args@)),
            !self@.contains_key(name@) ==> r is None,
    {
        match self.lookup(name) {
            Some(c) => Some((c, args.pack())),
            None => None,
        }
    }
}

/// How a callee's packed result can violate the single-return convention.
#[derive(Clone, Copy, PartialEq, Eq, Structural, Debug)]
pub enum ProtocolError {
    /// The buffer is not a well-formed packed list.
    Malformed,
    /// The list holds this many values instead of exactly one.
    WrongArity(usize),
}

/// Reads a callee's packed result under the single-return convention: the
/// buffer must decode to a list of exactly one value. Anything else is a
/// contract violation between independently compiled components, reported so
/// that the caller can fail fast.
pub fn decode_single_return(buf: PackedBuffer) -> (r: Result<ParamValue, ProtocolError>)
    ensures
        r matches Ok(v) ==> spec_decode(buf@) == Some(seq![v@]),
        r matches Err(e) ==> match e {
            ProtocolError::Malformed => spec_decode(buf@) is None,
            ProtocolError::WrongArity(n) => spec_decode(buf@) matches Some(l) && l.len() == n && n
                != 1,
        },
{
    match unpack(buf) {
        Ok(mut list) => {
            let n: usize = list.size();
            if n == 1 {
                let ghost pre = list@;
                let v = match list.values.pop() {
                    Some(v) => v,
                    None => vstd::pervasive::unreached(),
                };
                proof {
                    assert(pre =~= seq![v@]);
                }
                Ok(v)
            } else {
                Err(ProtocolError::WrongArity(n))
            }
        },
        Err(_) => Err(ProtocolError::Malformed),
    }
}

} // verus!
