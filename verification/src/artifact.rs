use vstd::prelude::*;

use crate::error::{outcome_view, Error, ErrorView};

verus! {

/// Names one cached artifact. Parameters belong to a degree, in a prover and
/// a verifier variant; keys and proofs belong to a circuit family's name.
#[derive(Debug, PartialEq, Eq)]
pub enum ArtifactKey {
    Parameters { degree: u32, verifier: bool },
    VerifyingKey { name: String },
    ProvingKey { name: String },
    Proof { name: String },
}

/// The mathematical content of an [`ArtifactKey`].
pub enum ArtifactId {
    Parameters { degree: u32, verifier: bool },
    VerifyingKey { name: Seq<char> },
    ProvingKey { name: Seq<char> },
    Proof { name: Seq<char> },
}

impl ArtifactId {
    /// The parameters of `degree`, in the prover or the verifier variant.
    pub open spec fn for_parameters(degree: u32, verifier: bool) -> ArtifactId {
        ArtifactId::Parameters { degree, verifier }
    }

    /// The verifying key of the family called `name`.
    pub open spec fn for_verifying_key(name: Seq<char>) -> ArtifactId {
        ArtifactId::VerifyingKey { name }
    }

    /// The proving key of the family called `name`.
    pub open spec fn for_proving_key(name: Seq<char>) -> ArtifactId {
        ArtifactId::ProvingKey { name }
    }

    /// The proof last produced for the family called `name`.
    pub open spec fn for_proof(name: Seq<char>) -> ArtifactId {
        ArtifactId::Proof { name }
    }
}

/// What reading one artifact gives on a store: its bytes, or the report
/// that it is missing.
pub open spec fn stored(
    store: Map<ArtifactId, Seq<u8>>,
    id: ArtifactId,
) -> Result<Seq<u8>, ErrorView> {
    if store.contains_key(id) {
        Ok(store[id])
    } else {
        Err(ErrorView::MissingArtifact(id))
    }
}

impl View for ArtifactKey {
    type V = ArtifactId;

    open spec fn view(&self) -> ArtifactId {
        match self {
            ArtifactKey::Parameters { degree, verifier } => ArtifactId::Parameters {
                degree: *degree,
                verifier: *verifier,
            },
            ArtifactKey::VerifyingKey { name } => ArtifactId::VerifyingKey { name: name@ },
            ArtifactKey::ProvingKey { name } => ArtifactId::ProvingKey { name: name@ },
            ArtifactKey::Proof { name } => ArtifactId::Proof { name: name@ },
        }
    }
}

impl Clone for ArtifactKey {
    fn clone(&self) -> (copy: ArtifactKey)
        ensures
            copy@ == self@,
    {
        match self {
            ArtifactKey::Parameters { degree, verifier } => ArtifactKey::Parameters {
                degree: *degree,
                verifier: *verifier,
            },
            ArtifactKey::VerifyingKey { name } => ArtifactKey::VerifyingKey { name: name.clone() },
            ArtifactKey::ProvingKey { name } => ArtifactKey::ProvingKey { name: name.clone() },
            ArtifactKey::Proof { name } => ArtifactKey::Proof { name: name.clone() },
        }
    }
}

impl ArtifactKey {
    /// The key of the parameters of `degree`, in the prover or the verifier variant.
    pub fn for_parameters(degree: u32, verifier: bool) -> (key: ArtifactKey)
        ensures
            key@ == ArtifactId::for_parameters(degree, verifier),
    {
        ArtifactKey::Parameters { degree, verifier }
    }

    /// The key of the verifying key of the family called `name`.
    pub fn for_verifying_key(name: &str) -> (key: ArtifactKey)
        ensures
            key@ == ArtifactId::for_verifying_key(name@),
    {
        ArtifactKey::VerifyingKey { name: name.to_owned() }
    }

    /// The key of the proving key of the family called `name`.
    pub fn for_proving_key(name: &str) -> (key: ArtifactKey)
        ensures
            key@ == ArtifactId::for_proving_key(name@),
    {
        ArtifactKey::ProvingKey { name: name.to_owned() }
    }

    /// The key of the proof last produced for the family called `name`.
    pub fn for_proof(name: &str) -> (key: ArtifactKey)
        ensures
            key@ == ArtifactId::for_proof(name@),
    {
        ArtifactKey::Proof { name: name.to_owned() }
    }

    /// Whether two keys name the same artifact.
    pub fn same_as(&self, other: &ArtifactKey) -> (same: bool)
        ensures
            same == (self@ == other@),
    {
        match self {
            ArtifactKey::Parameters { degree, verifier } => match other {
                ArtifactKey::Parameters { degree: d, verifier: v } => {
                    *degree == *d && *verifier == *v
                },
                _ => false,
            },
            ArtifactKey::VerifyingKey { name } => match other {
                ArtifactKey::VerifyingKey { name: n } => *name == *n,
                _ => false,
            },
            ArtifactKey::ProvingKey { name } => match other {
                ArtifactKey::ProvingKey { name: n } => *name == *n,
                _ => false,
            },
            ArtifactKey::Proof { name } => match other {
                ArtifactKey::Proof { name: n } => *name == *n,
                _ => false,
            },
        }
    }
}

/// One cached artifact: its key and its bytes.
#[derive(Debug, PartialEq, Eq)]
struct Entry {
    key: ArtifactKey,
    bytes: Vec<u8>,
}

/// Whether the entry at `index` is the one that `id` names.
spec fn names(entries: Seq<Entry>, index: int, id: ArtifactId) -> bool {
    0 <= index < entries.len() && entries[index].key@ == id
}

/// No two entries share a key.
spec fn distinct(entries: Seq<Entry>) -> bool {
    forall|i: int, j: int, id: ArtifactId|
        #[trigger] names(entries, i, id) && #[trigger] names(entries, j, id) ==> i == j
}

/// What the entries hold, as a map from key to bytes.
spec fn contents(entries: Seq<Entry>) -> Map<ArtifactId, Seq<u8>> {
    Map::new(
        |id: ArtifactId| exists|i: int| names(entries, i, id),
        |id: ArtifactId| entries[choose|i: int| names(entries, i, id)].bytes@,
    )
}

/// With distinct keys, the entry that a key names is the one the map shows.
proof fn lemma_contents_at(entries: Seq<Entry>, index: int, id: ArtifactId)
    requires
        distinct(entries),
        names(entries, index, id),
    ensures
        contents(entries).contains_key(id),
        contents(entries)[id] == entries[index].bytes@,
{
    let chosen = choose|i: int| names(entries, i, id);
    assert(names(entries, chosen, id));
}

/// Replacing or adding the entry of one key is an insertion into the map.
proof fn lemma_contents_insert(before: Seq<Entry>, after: Seq<Entry>, at: int, id: ArtifactId)
    requires
        distinct(before),
        names(after, at, id),
        forall|i: int, other: ArtifactId| #[trigger]
            names(after, i, other) == ((names(before, i, other) && i != at) || (i == at && other
                == id)),
        forall|i: int| 0 <= i < before.len() && i != at ==> 0 <= i < after.len() && after[i]
            == before[i],
        names(before, at, id) || (at == before.len() && forall|i: int| !names(before, i, id)),
    ensures
        distinct(after),
        contents(after) =~= contents(before).insert(id, after[at].bytes@),
{
    assert forall|other: ArtifactId| #[trigger]
        contents(after).contains_key(other) == contents(before).insert(
            id,
            after[at].bytes@,
        ).contains_key(other) by {
        if contents(after).contains_key(other) {
            let i = choose|i: int| names(after, i, other);
            assert(names(after, i, other));
        }
        if contents(before).contains_key(other) && other != id {
            let i = choose|i: int| names(before, i, other);
            assert(names(before, i, other));
            assert(names(after, i, other));
        }
    }
    assert forall|other: ArtifactId| contents(after).contains_key(other) implies #[trigger]
        contents(after)[other] == contents(before).insert(id, after[at].bytes@)[other] by {
        let i = choose|i: int| names(after, i, other);
        assert(names(after, i, other));
        lemma_contents_at(after, i, other);
        if other != id {
            lemma_contents_at(before, i, other);
        }
    }
}

/// Entries that agree key by key and byte by byte show the same map.
proof fn lemma_contents_agree(left: Seq<Entry>, right: Seq<Entry>)
    requires
        distinct(left),
        left.len() == right.len(),
        forall|i: int|
            0 <= i < left.len() ==> left[i].key@ == right[i].key@ && left[i].bytes@
                == right[i].bytes@,
    ensures
        distinct(right),
        contents(right) =~= contents(left),
{
    assert forall|i: int, id: ArtifactId| #[trigger]
        names(right, i, id) == names(left, i, id) by {}
    assert forall|id: ArtifactId| #[trigger]
        contents(right).contains_key(id) == contents(left).contains_key(id) by {
        if contents(right).contains_key(id) {
            let i = choose|i: int| names(right, i, id);
            assert(names(left, i, id));
        }
        if contents(left).contains_key(id) {
            let i = choose|i: int| names(left, i, id);
            assert(names(right, i, id));
        }
    }
    assert forall|id: ArtifactId| contents(right).contains_key(id) implies #[trigger]
        contents(right)[id] == contents(left)[id] by {
        let i = choose|i: int| names(right, i, id);
        assert(names(left, i, id));
        lemma_contents_at(right, i, id);
        lemma_contents_at(left, i, id);
    }
}

/// A keyed cache of artifact bytes. A key holds at most one artifact, and a
/// write replaces whatever the key held before. `==` compares two stores
/// artifact by artifact in the order in which their keys were first written.
#[derive(Debug, PartialEq, Eq)]
pub struct ArtifactStore {
    entries: Vec<Entry>,
}

impl View for ArtifactStore {
    type V = Map<ArtifactId, Seq<u8>>;

    closed spec fn view(&self) -> Map<ArtifactId, Seq<u8>> {
        contents(self.entries@)
    }
}

impl Clone for ArtifactStore {
    fn clone(&self) -> (copy: ArtifactStore)
        ensures
            copy@ == self@,
    {
        proof {
            use_type_invariant(self);
        }
        let mut entries: Vec<Entry> = Vec::new();
        let mut index: usize = 0;
        while index < self.entries.len()
            invariant
                index <= self.entries.len(),
                entries.len() == index,
                forall|i: int|
                    0 <= i < index ==> self.entries[i].key@ == entries[i].key@
                        && self.entries[i].bytes@ == entries[i].bytes@,
            decreases self.entries.len() - index,
        {
            let entry = &self.entries[index];
            entries.push(Entry { key: entry.key.clone(), bytes: entry.bytes.clone() });
            index += 1;
        }
        proof {
            lemma_contents_agree(self.entries@, entries@);
        }
        ArtifactStore { entries }
    }
}

impl ArtifactStore {
    #[verifier::type_invariant]
    spec fn well_formed(&self) -> bool {
        distinct(self.entries@)
    }

    /// A store that holds nothing.
    pub fn new() -> (store: ArtifactStore)
        ensures
            store@ == Map::<ArtifactId, Seq<u8>>::empty(),
    {
        let store = ArtifactStore { entries: Vec::new() };
        assert(store@ =~= Map::<ArtifactId, Seq<u8>>::empty());
        store
    }

    /// Where the artifact that `key` names is held, if it is held.
    fn position(&self, key: &ArtifactKey) -> (found: Option<usize>)
        ensures
            match found {
                Some(index) => names(self.entries@, index as int, key@),
                None => forall|i: int| !names(self.entries@, i, key@),
            },
    {
        let mut index: usize = 0;
        while index < self.entries.len()
            invariant
                index <= self.entries.len(),
                forall|i: int| 0 <= i < index ==> !names(self.entries@, i, key@),
            decreases self.entries.len() - index,
        {
            if self.entries[index].key.same_as(key) {
                return Some(index);
            }
            index += 1;
        }
        None
    }

    /// Whether the store holds the artifact that `key` names.
    pub fn contains(&self, key: &ArtifactKey) -> (held: bool)
        ensures
            held == self@.contains_key(key@),
    {
        self.position(key).is_some()
    }

    /// The bytes of the artifact that `key` names.
    pub fn read(&self, key: &ArtifactKey) -> (found: Result<Vec<u8>, Error>)
        ensures
            outcome_view(found) == stored(self@, key@),
    {
        proof {
            use_type_invariant(self);
        }
        match self.position(key) {
            Some(index) => Ok(self.entries[index].bytes.clone()),
            None => Err(Error::MissingArtifact(key.clone())),
        }
    }

    /// Stores `bytes` under `key`, replacing what the key held before.
    pub fn write(&mut self, key: ArtifactKey, bytes: Vec<u8>)
        ensures
            final(self)@ == old(self)@.insert(key@, bytes@),
    {
        proof {
            use_type_invariant(&*self);
        }
        let ghost before = self.entries@;
        let ghost id = key@;
        let ghost content = bytes@;
        let found = self.position(&key);
        let mut entries: Vec<Entry> = Vec::new();
        core::mem::swap(&mut self.entries, &mut entries);
        let ghost at: int;
        match found {
            Some(index) => {
                entries.set(index, Entry { key, bytes });
                proof {
                    at = index as int;
                }
            },
            None => {
                entries.push(Entry { key, bytes });
                proof {
                    at = before.len() as int;
                }
            },
        }
        proof {
            assert(names(entries@, at, id));
            lemma_contents_insert(before, entries@, at, id);
        }
        core::mem::swap(&mut self.entries, &mut entries);
    }
}

} // verus!
