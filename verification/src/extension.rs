//! Extension capability negotiation.
//!
//! Both sides of the protocol expose optional, versioned capabilities that
//! the other side discovers at instantiation time by a stable identifier
//! string. A negotiation context is built from one requested identifier;
//! candidate capabilities then attempt registration in caller-chosen priority
//! order, and the first exact identifier match wins. Absence of a match is
//! not an error: it signals an optional feature the other side lacks.
//!
//! Identifier strings are exchanged verbatim as bytes: matching is exact and
//! byte-for-byte, with no normalization or case-folding. The capability table
//! behind a match is never copied, only referenced; it is carried here as an
//! opaque interface handle.

use vstd::prelude::*;

verus! {

/// A capability offered during negotiation: a stable identifier paired with
/// an opaque, address-stable interface handle. The handle stands for the
/// capability's method table, which must stay valid for the lifetime of the
/// instance it was offered to.
#[derive(Debug)]
pub struct ExtensionDescriptor {
    pub identifier: Vec<u8>,
    pub interface: u64,
}

impl ExtensionDescriptor {
    /// The identifier/handle pair as plain mathematical values.
    pub open spec fn view_pair(self) -> (Seq<u8>, u64) {
        (self.identifier@, self.interface)
    }
}

/// The identifier/handle pairs of a capability table, in offer order.
pub open spec fn table_view(table: Seq<ExtensionDescriptor>) -> Seq<(Seq<u8>, u64)> {
    table.map_values(|d: ExtensionDescriptor| d.view_pair())
}

/// The handle of the first capability in `table` whose identifier equals
/// `requested` exactly, if any: earlier entries take priority.
pub open spec fn first_match(table: Seq<(Seq<u8>, u64)>, requested: Seq<u8>) -> Option<u64>
    decreases table.len(),
{
    if table.len() == 0 {
        None
    } else if table[0].0 == requested {
        Some(table[0].1)
    } else {
        first_match(table.drop_first(), requested)
    }
}

/// What one registration attempt leaves as the negotiation result: an
/// already-found capability is kept, otherwise an exact identifier match
/// captures the candidate's handle.
pub open spec fn register_step(
    found: Option<u64>,
    requested: Seq<u8>,
    identifier: Seq<u8>,
    interface: u64,
) -> Option<u64> {
    if found is Some {
        found
    } else if identifier == requested {
        Some(interface)
    } else {
        None
    }
}

/// The negotiation result after every capability of `table` has attempted
/// registration, in order, starting from `found`.
pub open spec fn register_all(
    found: Option<u64>,
    requested: Seq<u8>,
    table: Seq<(Seq<u8>, u64)>,
) -> Option<u64>
    decreases table.len(),
{
    if table.len() == 0 {
        found
    } else {
        register_all(
            register_step(found, requested, table[0].0, table[0].1),
            requested,
            table.drop_first(),
        )
    }
}

/// First-match-wins: letting a whole capability table attempt registration
/// against a fresh negotiation context yields exactly the first entry whose
/// identifier equals the requested one, regardless of what follows it.
pub proof fn lemma_first_match_wins(requested: Seq<u8>, table: Seq<(Seq<u8>, u64)>)
    ensures
        register_all(None, requested, table) == first_match(table, requested),
    decreases table.len(),
{
    if table.len() != 0 {
        if table[0].0 == requested {
            lemma_register_all_keeps_found(Some(table[0].1), requested, table.drop_first());
        } else {
            lemma_first_match_wins(requested, table.drop_first());
        }
    }
}

/// A found capability is final: later registration attempts never replace it.
pub proof fn lemma_register_all_keeps_found(
    found: Option<u64>,
    requested: Seq<u8>,
    table: Seq<(Seq<u8>, u64)>,
)
    requires
        found is Some,
    ensures
        register_all(found, requested, table) == found,
    decreases table.len(),
{
    if table.len() != 0 {
        lemma_register_all_keeps_found(found, requested, table.drop_first());
    }
}

/// Exact byte-for-byte equality of two identifier strings.
pub fn bytes_eq(a: &[u8], b: &[u8]) -> (r: bool)
    ensures
        r == (a@ == b@),
{
    if a.len() != b.len() {
        return false;
    }
    let mut i: usize = 0;
    while i < a.len()
        invariant
            0 <= i <= a.len(),
            a@.len() == b@.len(),
            forall|j: int| 0 <= j < i ==> a@[j] == b@[j],
        decreases a.len() - i,
    {
        if a[i] != b[i] {
            return false;
        }
        i += 1;
    }
    proof {
        assert(a@ =~= b@);
    }
    true
}

/// Extension discovery against a capability table: the handle of the first
/// entry whose identifier matches `identifier` exactly, or absence when the
/// table does not offer the extension.
pub fn find_extension(table: &Vec<ExtensionDescriptor>, identifier: &[u8]) -> (r: Option<u64>)
    ensures
        r == first_match(table_view(table@), identifier@),
{
    let ghost tv = table_view(table@);
    proof {
        assert(tv.skip(0) =~= tv);
    }
    let mut i: usize = 0;
    while i < table.len()
        invariant
            0 <= i <= table@.len(),
            tv == table_view(table@),
            tv.len() == table@.len(),
            first_match(tv, identifier@) == first_match(tv.skip(i as int), identifier@),
        decreases table@.len() - i,
    {
        let d = &table[i];
        if bytes_eq(d.identifier.as_slice(), identifier) {
            proof {
                assert(tv.skip(i as int)[0] == tv[i as int]);
            }
            return Some(d.interface);
        }
        proof {
            assert(tv.skip(i as int)[0] == tv[i as int]);
            assert(tv.skip(i as int).drop_first() =~= tv.skip(i + 1));
        }
        i += 1;
    }
    None
}

/// A negotiation context for one requested identifier. Candidate capabilities
/// attempt registration one by one; the first exact match is retained and
/// every later attempt is a no-op. Performs no allocation beyond holding the
/// requested identifier; not meant for the real-time audio path.
pub struct ExtensionDeclarations {
    requested: Vec<u8>,
    found: Option<u64>,
}

impl ExtensionDeclarations {
    /// The identifier this negotiation is looking for.
    pub closed spec fn spec_requested(self) -> Seq<u8> {
        self.requested@
    }

    /// The captured capability handle, if a match has been found so far.
    pub closed spec fn spec_found(self) -> Option<u64> {
        self.found
    }

    /// Opens a negotiation for one requested identifier; nothing is found
    /// yet.
    pub fn new(requested: Vec<u8>) -> (r: Self)
        ensures
            r.spec_requested() == requested@,
            r.spec_found() is None,
    {
        Self { requested, found: None }
    }

    /// One candidate capability attempts registration: a no-op if a match was
    /// already found, otherwise the candidate's handle is captured exactly
    /// when its identifier equals the requested one.
    pub fn register(&mut self, identifier: &[u8], interface: u64)
        ensures
            final(self).spec_requested() == old(self).spec_requested(),
            final(self).spec_found() == register_step(
                old(self).spec_found(),
                old(self).spec_requested(),
                identifier@,
                interface,
            ),
    {
        if self.found.is_some() {
            return;
        }
        if bytes_eq(identifier, self.requested.as_slice()) {
            self.found = Some(interface);
        }
    }

    /// The negotiation result: the handle of the first matching capability,
    /// or absent when the requested extension is not supported.
    pub fn found(&self) -> (r: Option<u64>)
        ensures
            r == self.spec_found(),
    {
        self.found
    }
}

} // verus!
