use crate::crypto::{decode_key, key_decodes};
use crate::error::HealthcareError;
use vstd::prelude::*;

verus! {

/// A serialized Groth16 verifying key registered for one circuit.
#[derive(Clone, Debug)]
pub struct VerifyingKeyPDA {
    /// Serialized Groth16 verifying key
    pub vk_bytes: Vec<u8>,
    /// Circuit identifier (e.g., "eligibility_v1")
    pub circuit_id: String,
    /// Authority that can update the VK
    pub authority: [u8; 32],
    /// Last update timestamp
    pub updated_at: i64,
}

/// What the store keeps for a circuit: key bytes, authority, time of the last change.
pub struct KeyEntry {
    pub vk_bytes: Seq<u8>,
    pub authority: Seq<u8>,
    pub updated_at: i64,
}

impl VerifyingKeyPDA {
    pub open spec fn entry(&self) -> KeyEntry {
        KeyEntry { vk_bytes: self.vk_bytes@, authority: self.authority@, updated_at: self.updated_at }
    }
}

/// The keys of a list, circuit by circuit; a later entry shadows an earlier one.
pub open spec fn entries_map(s: Seq<VerifyingKeyPDA>) -> Map<Seq<char>, KeyEntry>
    decreases s.len(),
{
    if s.len() == 0 {
        Map::empty()
    } else {
        entries_map(s.drop_last()).insert(s.last().circuit_id@, s.last().entry())
    }
}

/// No two entries of the list name the same circuit.
pub open spec fn ids_unique(s: Seq<VerifyingKeyPDA>) -> bool {
    forall|i: int, j: int|
        0 <= i < s.len() && 0 <= j < s.len() && i != j ==> s[i].circuit_id@ != s[j].circuit_id@
}

proof fn lemma_entries_map_at(s: Seq<VerifyingKeyPDA>, i: int)
    requires
        ids_unique(s),
        0 <= i < s.len(),
    ensures
        entries_map(s).contains_key(s[i].circuit_id@),
        entries_map(s)[s[i].circuit_id@] == s[i].entry(),
    decreases s.len(),
{
    if i < s.len() - 1 {
        lemma_entries_map_at(s.drop_last(), i);
    }
}

proof fn lemma_entries_map_absent(s: Seq<VerifyingKeyPDA>, id: Seq<char>)
    requires
        forall|j: int| 0 <= j < s.len() ==> s[j].circuit_id@ != id,
    ensures
        !entries_map(s).contains_key(id),
    decreases s.len(),
{
    if s.len() > 0 {
        lemma_entries_map_absent(s.drop_last(), id);
    }
}

proof fn lemma_entries_map_update(s: Seq<VerifyingKeyPDA>, i: int, e: VerifyingKeyPDA)
    requires
        ids_unique(s),
        0 <= i < s.len(),
        e.circuit_id@ == s[i].circuit_id@,
    ensures
        entries_map(s.update(i, e)) == entries_map(s).insert(e.circuit_id@, e.entry()),
    decreases s.len(),
{
    let t = s.update(i, e);
    if i == s.len() - 1 {
        assert(t.drop_last() == s.drop_last());
        assert(entries_map(s).insert(e.circuit_id@, e.entry()) =~= entries_map(s.drop_last()).insert(
            e.circuit_id@,
            e.entry(),
        ));
    } else {
        lemma_entries_map_update(s.drop_last(), i, e);
        assert(t.drop_last() == s.drop_last().update(i, e));
        assert(s.last().circuit_id@ != e.circuit_id@);
        assert(entries_map(t) =~= entries_map(s).insert(e.circuit_id@, e.entry()));
    }
}

/// The registered verifying keys, at most one per circuit identifier.
pub struct VerifyingKeyStore {
    keys: Vec<VerifyingKeyPDA>,
}

impl VerifyingKeyStore {
    pub closed spec fn view(&self) -> Map<Seq<char>, KeyEntry> {
        entries_map(self.keys@)
    }

    /// Identifiers are unique and every stored key decodes.
    pub closed spec fn wf(&self) -> bool {
        &&& ids_unique(self.keys@)
        &&& forall|i: int| 0 <= i < self.keys@.len() ==> #[trigger] key_decodes(self.keys@[i].vk_bytes@)
    }

    pub fn new() -> (r: VerifyingKeyStore)
        ensures
            r.wf(),
            r@ == Map::<Seq<char>, KeyEntry>::empty(),
    {
        VerifyingKeyStore { keys: Vec::new() }
    }

    fn position(&self, circuit_id: &String) -> (r: Option<usize>)
        requires
            self.wf(),
        ensures
            match r {
                Some(i) => i < self.keys@.len() && self.keys@[i as int].circuit_id@ == circuit_id@
                    && self@.contains_key(circuit_id@)
                    && self@[circuit_id@] == self.keys@[i as int].entry(),
                None => !self@.contains_key(circuit_id@),
            },
    {
        let mut i: usize = 0;
        while i < self.keys.len()
            invariant
                self.wf(),
                i <= self.keys@.len(),
                forall|j: int| 0 <= j < i ==> self.keys@[j].circuit_id@ != circuit_id@,
            decreases self.keys@.len() - i,
        {
            if self.keys[i].circuit_id == *circuit_id {
                proof {
                    lemma_entries_map_at(self.keys@, i as int);
                }
                return Some(i);
            }
            i = i + 1;
        }
        proof {
            lemma_entries_map_absent(self.keys@, circuit_id@);
        }
        None
    }

    /// The key registered for a circuit, if any.
    pub fn lookup(&self, circuit_id: &String) -> (r: Option<&VerifyingKeyPDA>)
        requires
            self.wf(),
        ensures
            match r {
                Some(k) => self@.contains_key(circuit_id@) && k.circuit_id@ == circuit_id@
                    && k.entry() == self@[circuit_id@] && key_decodes(k.vk_bytes@),
                None => !self@.contains_key(circuit_id@),
            },
    {
        match self.position(circuit_id) {
            Some(i) => Some(&self.keys[i]),
            None => None,
        }
    }

    /// Registers the key of a new circuit. Key bytes that do not decode are refused.
    pub fn register(&mut self, circuit_id: String, vk_bytes: Vec<u8>, authority: [u8; 32], now: i64) -> (r: Result<(), HealthcareError>)
        requires
            old(self).wf(),
        ensures
            final(self).wf(),
            !key_decodes(vk_bytes@) ==> r == Err::<(), HealthcareError>(HealthcareError::MalformedVerifyingKey),
            key_decodes(vk_bytes@) && old(self)@.contains_key(circuit_id@) ==> r == Err::<(), HealthcareError>(HealthcareError::KeyAlreadyRegistered),
            key_decodes(vk_bytes@) && !old(self)@.contains_key(circuit_id@) ==> r is Ok,
            r is Ok ==> final(self)@ == old(self)@.insert(
                circuit_id@,
                KeyEntry { vk_bytes: vk_bytes@, authority: authority@, updated_at: now },
            ),
            r is Err ==> final(self)@ == old(self)@,
    {
        if !decode_key(&vk_bytes) {
            return Err(HealthcareError::MalformedVerifyingKey);
        }
        if self.position(&circuit_id).is_some() {
            return Err(HealthcareError::KeyAlreadyRegistered);
        }
        let ghost before = self.keys@;
        let entry = VerifyingKeyPDA { vk_bytes, circuit_id, authority, updated_at: now };
        self.keys.push(entry);
        proof {
            assert(self.keys@.drop_last() == before);
            assert forall|i: int, j: int|
                0 <= i < self.keys@.len() && 0 <= j < self.keys@.len() && i != j
                implies self.keys@[i].circuit_id@ != self.keys@[j].circuit_id@ by {
                if i == before.len() as int {
                    lemma_entries_map_at(before, j);
                } else if j == before.len() as int {
                    lemma_entries_map_at(before, i);
                }
            }
        }
        Ok(())
    }

    /// Replaces the key of a registered circuit. Only the circuit's authority may do so.
    pub fn update(&mut self, circuit_id: &String, vk_bytes: Vec<u8>, caller: [u8; 32], now: i64) -> (r: Result<(), HealthcareError>)
        requires
            old(self).wf(),
        ensures
            final(self).wf(),
            !old(self)@.contains_key(circuit_id@) ==> r == Err::<(), HealthcareError>(HealthcareError::NoRegisteredKey),
            old(self)@.contains_key(circuit_id@) && old(self)@[circuit_id@].authority != caller@
                ==> r == Err::<(), HealthcareError>(HealthcareError::Unauthorized),
            old(self)@.contains_key(circuit_id@) && old(self)@[circuit_id@].authority == caller@ && !key_decodes(vk_bytes@)
                ==> r == Err::<(), HealthcareError>(HealthcareError::MalformedVerifyingKey),
            old(self)@.contains_key(circuit_id@) && old(self)@[circuit_id@].authority == caller@ && key_decodes(vk_bytes@)
                ==> r is Ok,
            r is Ok ==> final(self)@ == old(self)@.insert(
                circuit_id@,
                KeyEntry { vk_bytes: vk_bytes@, authority: caller@, updated_at: now },
            ),
            r is Err ==> final(self)@ == old(self)@,
    {
        let i = match self.position(circuit_id) {
            Some(i) => i,
            None => {
                return Err(HealthcareError::NoRegisteredKey);
            },
        };
        if !same_identity(&self.keys[i].authority, &caller) {
            return Err(HealthcareError::Unauthorized);
        }
        if !decode_key(&vk_bytes) {
            return Err(HealthcareError::MalformedVerifyingKey);
        }
        let ghost before = self.keys@;
        let entry = VerifyingKeyPDA { vk_bytes, circuit_id: circuit_id.clone(), authority: caller, updated_at: now };
        self.keys.set(i, entry);
        proof {
            lemma_entries_map_update(before, i as int, entry);
            assert(self.keys@ == before.update(i as int, entry));
        }
        Ok(())
    }
}

/// Looking a circuit up right after registering its key gives back the very
/// key bytes that were registered.
pub proof fn lemma_lookup_after_register(
    pre: Map<Seq<char>, KeyEntry>,
    post: Map<Seq<char>, KeyEntry>,
    circuit_id: Seq<char>,
    vk_bytes: Seq<u8>,
    authority: Seq<u8>,
    now: i64,
)
    requires
        post == pre.insert(circuit_id, KeyEntry { vk_bytes, authority, updated_at: now }),
    ensures
        post.contains_key(circuit_id),
        post[circuit_id].vk_bytes == vk_bytes,
{
}

/// Whether two identities are the same 32 bytes.
pub fn same_identity(a: &[u8; 32], b: &[u8; 32]) -> (r: bool)
    ensures
        r == (a@ == b@),
{
    let mut i: usize = 0;
    while i < 32
        invariant
            i <= 32,
            a@.len() == 32,
            b@.len() == 32,
            forall|j: int| 0 <= j < i ==> a@[j] == b@[j],
        decreases 32 - i,
    {
        if a[i] != b[i] {
            return false;
        }
        i = i + 1;
    }
    assert(a@ =~= b@);
    true
}

} // verus!
