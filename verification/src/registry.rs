//! The dispatch table keyed by message-type identifier.
//!
//! For every message type the application intends to exchange it records
//! the declared wire representation. Entries are added before any
//! connection that uses them is opened; the pumps only read the table.
//! The embedding keeps its serialize and deserialize functions keyed by
//! the same identifiers.

use vstd::prelude::*;

use crate::envelope::{DataKind, Envelope, kind_of};
use crate::error::TransportError;

verus! {

/// One entry of the table: a message-type identifier and the wire
/// representation declared for it.
#[derive(Clone, Debug, PartialEq, Eq)]
pub struct Registration {
    /// The message-type identifier.
    pub name: String,
    /// The declared wire representation.
    pub data_kind: DataKind,
}

/// The declared representation of the first entry named `name` at or
/// after position `i`, if any.
pub open spec fn spec_lookup_from(entries: Seq<Registration>, name: Seq<char>, i: int) -> Option<
    DataKind,
>
    decreases entries.len() - i,
{
    if i < 0 || i >= entries.len() {
        None
    } else if entries[i].name@ == name {
        Some(entries[i].data_kind)
    } else {
        spec_lookup_from(entries, name, i + 1)
    }
}

/// The declared representation registered under `name`, if any.
pub open spec fn spec_lookup(entries: Seq<Registration>, name: Seq<char>) -> Option<DataKind> {
    spec_lookup_from(entries, name, 0)
}

/// Appending an entry never changes what earlier entries answer; it is
/// found only where no earlier entry has its name.
proof fn lemma_lookup_from_push(entries: Seq<Registration>, r: Registration, name: Seq<char>, i: int)
    requires
        0 <= i <= entries.len(),
    ensures
        spec_lookup_from(entries.push(r), name, i) == if spec_lookup_from(entries, name, i) is Some {
            spec_lookup_from(entries, name, i)
        } else if r.name@ == name {
            Some(r.data_kind)
        } else {
            None::<DataKind>
        },
    decreases entries.len() - i,
{
    if i == entries.len() {
        assert(entries.push(r)[i] == r);
    } else {
        assert(entries.push(r)[i] == entries[i]);
        lemma_lookup_from_push(entries, r, name, i + 1);
    }
}

/// Appending an entry leaves every already-registered name answered as
/// before, and makes a new name answer with the appended entry.
pub proof fn lemma_lookup_push(entries: Seq<Registration>, r: Registration, name: Seq<char>)
    ensures
        spec_lookup(entries.push(r), name) == if spec_lookup(entries, name) is Some {
            spec_lookup(entries, name)
        } else if r.name@ == name {
            Some(r.data_kind)
        } else {
            None::<DataKind>
        },
{
    lemma_lookup_from_push(entries, r, name, 0);
}

/// The registration table: message-type identifiers and their declared
/// wire representations, queried by both pumps.
#[derive(Clone, Debug)]
pub struct RegistrationTable {
    /// The entries, in registration order. The first entry with a given
    /// name answers for it; `register` never adds a second one.
    pub entries: Vec<Registration>,
}

impl RegistrationTable {
    /// An empty table.
    pub fn new() -> (t: Self)
        ensures
            t.entries@ =~= Seq::<Registration>::empty(),
    {
        RegistrationTable { entries: Vec::new() }
    }

    /// The declared representation registered under `name`, if any.
    pub fn lookup(&self, name: &String) -> (r: Option<DataKind>)
        ensures
            r == spec_lookup(self.entries@, name@),
    {
        let mut i: usize = 0;
        while i < self.entries.len()
            invariant
                0 <= i <= self.entries@.len(),
                spec_lookup(self.entries@, name@) == spec_lookup_from(self.entries@, name@, i as int),
            decreases self.entries@.len() - i,
        {
            let e = &self.entries[i];
            if e.name == *name {
                return Some(e.data_kind);
            }
            i = i + 1;
        }
        None
    }

    /// Adds a message type with its declared representation, unless the
    /// name is already taken. Returns whether the entry was added; an
    /// attempt to register a taken name leaves the table unchanged.
    pub fn register(&mut self, name: String, data_kind: DataKind) -> (added: bool)
        ensures
            added == (spec_lookup(old(self).entries@, name@) is None),
            added ==> final(self).entries@ == old(self).entries@.push(
                Registration { name, data_kind },
            ),
            added ==> spec_lookup(final(self).entries@, name@) == Some(data_kind),
            !added ==> final(self).entries@ == old(self).entries@,
            forall|other: Seq<char>|
                other != name@ ==> #[trigger] spec_lookup(final(self).entries@, other)
                    == spec_lookup(old(self).entries@, other),
    {
        if self.lookup(&name).is_some() {
            return false;
        }
        let ghost before = self.entries@;
        let entry = Registration { name, data_kind };
        proof {
            assert forall|other: Seq<char>| true implies #[trigger] spec_lookup(
                before.push(entry),
                other,
            ) == if spec_lookup(before, other) is Some {
                spec_lookup(before, other)
            } else if entry.name@ == other {
                Some(entry.data_kind)
            } else {
                None::<DataKind>
            } by {
                lemma_lookup_push(before, entry, other);
            }
        }
        self.entries.push(entry);
        true
    }

    /// Message-mode admission check for one envelope: its type must be
    /// registered and its payload must be in the declared representation.
    /// A text frame where binary was declared, the reverse, or an
    /// unregistered type is a decode failure.
    pub fn check_envelope(&self, env: &Envelope) -> (r: Result<(), TransportError>)
        ensures
            r is Ok <==> spec_lookup(self.entries@, env.kind@) == Some(kind_of(env.data)),
            r is Err ==> r == Err::<(), _>(TransportError::Decode),
    {
        match self.lookup(&env.kind) {
            Some(declared) => {
                if declared == env.data.data_kind() {
                    Ok(())
                } else {
                    Err(TransportError::Decode)
                }
            },
            None => Err(TransportError::Decode),
        }
    }
}

} // verus!
