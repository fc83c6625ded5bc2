//! The context store: named values attached to every record.

use crate::payload::{append_member, member_text, FieldView, Payload, PayloadView};
use vstd::prelude::*;

verus! {

/// Why a configuration was refused.
#[derive(Clone, Copy, Debug, PartialEq, Eq, Structural)]
pub enum ConfigError {
    /// The name is one that every line already uses, or the literal
    /// `context`, and cannot name a context value.
    ReservedKey,
    /// The name chosen for the timestamp member is reserved or already names
    /// a context value.
    TimestampKeyTaken,
}

/// The names that no context value and no timestamp member may have.
pub open spec fn is_reserved_name(key: Seq<char>) -> bool {
    key == "level"@ || key == "context"@ || key == "message"@ || key == "data"@
}

/// Whether some member of `fields` is named `key`.
pub open spec fn has_key(fields: Seq<FieldView>, key: Seq<char>) -> bool {
    exists|i: int| 0 <= i < fields.len() && (#[trigger] fields[i]).key == key
}

/// The names are pairwise different and none is reserved.
pub open spec fn keys_valid(fields: Seq<FieldView>) -> bool {
    &&& forall|i: int| 0 <= i < fields.len() ==> !is_reserved_name((#[trigger] fields[i]).key)
    &&& forall|i: int, j: int|
        0 <= i < j < fields.len() ==> (#[trigger] fields[i]).key != (#[trigger] fields[j]).key
}

/// `fields` after `key` was bound to `value`: a member of that name gets the
/// new value where it stands, and a new name goes to the end.
pub open spec fn upsert(fields: Seq<FieldView>, key: Seq<char>, value: PayloadView) -> Seq<
    FieldView,
> {
    let bound = FieldView { key, value };
    if has_key(fields, key) {
        fields.map_values(
            |f: FieldView|
                if f.key == key {
                    bound
                } else {
                    f
                },
        )
    } else {
        fields.push(bound)
    }
}

/// Binding a name that is not reserved keeps the names pairwise different
/// and free of reserved ones.
pub proof fn lemma_upsert_keeps_valid(fields: Seq<FieldView>, key: Seq<char>, value: PayloadView)
    requires
        keys_valid(fields),
        !is_reserved_name(key),
    ensures
        keys_valid(upsert(fields, key, value)),
{
    let after = upsert(fields, key, value);
    if has_key(fields, key) {
        assert forall|i: int| 0 <= i < after.len() implies (#[trigger] after[i]).key
            == fields[i].key by {}
    } else {
        assert forall|i: int, j: int| 0 <= i < j < after.len() implies (#[trigger] after[i]).key != (
        #[trigger] after[j]).key by {
            if j == fields.len() {
                assert(fields[i].key != key);
            }
        }
    }
}

/// All members of `fields` in order, each with its separator in front.
pub open spec fn rendered_fields(fields: Seq<FieldView>, pretty: bool) -> Seq<char>
    decreases fields.len(),
{
    if fields.len() == 0 {
        Seq::empty()
    } else {
        rendered_fields(fields.drop_last(), pretty) + member_text(
            fields.last().key,
            fields.last().value.rendered(pretty),
            pretty,
        )
    }
}

/// Whether two pieces of text are the same.
pub fn same_text(a: &str, b: &str) -> (same: bool)
    ensures
        same == (a@ == b@),
{
    let x = a.to_owned();
    let y = b.to_owned();
    x == y
}

/// Whether `key` is a reserved name.
pub fn is_reserved_key(key: &str) -> (reserved: bool)
    ensures
        reserved == is_reserved_name(key@),
{
    same_text(key, "level") || same_text(key, "context") || same_text(key, "message") || same_text(
        key,
        "data",
    )
}

/// One named value.
#[derive(Debug, PartialEq, Eq)]
pub struct ContextEntry {
    pub key: String,
    pub value: Payload,
}

impl Clone for ContextEntry {
    fn clone(&self) -> (copy: Self)
        ensures
            copy@ == self@,
    {
        ContextEntry { key: self.key.clone(), value: self.value.clone() }
    }
}

impl View for ContextEntry {
    type V = FieldView;

    open spec fn view(&self) -> FieldView {
        FieldView { key: self.key@, value: self.value@ }
    }
}

/// An ordered set of named values. Names are unique and never reserved.
#[derive(Debug, PartialEq, Eq)]
pub struct ContextStore {
    entries: Vec<ContextEntry>,
}

impl View for ContextStore {
    type V = Seq<FieldView>;

    closed spec fn view(&self) -> Seq<FieldView> {
        self.entries@.map_values(|e: ContextEntry| e@)
    }
}

impl ContextStore {
    #[verifier::type_invariant]
    spec fn inv(self) -> bool {
        keys_valid(self@)
    }

    /// The empty store.
    pub fn new() -> (store: Self)
        ensures
            store@ == Seq::<FieldView>::empty(),
    {
        ContextStore { entries: Vec::new() }
    }

    /// The number of named values.
    pub fn len(&self) -> (n: usize)
        ensures
            n == self@.len(),
            keys_valid(self@),
    {
        proof {
            use_type_invariant(self);
        }
        self.entries.len()
    }

    /// The entry at position `i`, if there is one.
    pub fn get(&self, i: usize) -> (e: Option<&ContextEntry>)
        ensures
            i < self@.len() ==> e is Some && e->Some_0@ == self@[i as int],
            i >= self@.len() ==> e is None,
    {
        if i < self.entries.len() {
            Some(&self.entries[i])
        } else {
            None
        }
    }

    /// The position of the value named `key`.
    pub fn position(&self, key: &str) -> (found: Option<usize>)
        ensures
            found matches Some(i) ==> i < self@.len() && self@[i as int].key == key@,
            found is None ==> !has_key(self@, key@),
    {
        let mut i: usize = 0;
        while i < self.entries.len()
            invariant
                i <= self.entries.len(),
                forall|j: int| 0 <= j < i ==> (#[trigger] self@[j]).key != key@,
            decreases self.entries.len() - i,
        {
            if same_text(self.entries[i].key.as_str(), key) {
                return Some(i);
            }
            i += 1;
        }
        None
    }

    /// Whether a value is named `key`.
    pub fn contains_key(&self, key: &str) -> (found: bool)
        ensures
            found == has_key(self@, key@),
    {
        self.position(key).is_some()
    }

    /// Binds `key` to `value`, unless the name is reserved.
    pub fn insert(&mut self, key: String, value: Payload) -> (done: Result<(), ConfigError>)
        ensures
            is_reserved_name(key@) ==> done == Err::<(), ConfigError>(ConfigError::ReservedKey)
                && final(self)@ == old(self)@,
            !is_reserved_name(key@) ==> done is Ok && final(self)@ == upsert(
                old(self)@,
                key@,
                value@,
            ),
            keys_valid(final(self)@),
    {
        proof {
            use_type_invariant(&*self);
        }
        if is_reserved_key(key.as_str()) {
            return Err(ConfigError::ReservedKey);
        }
        let ghost before = self@;
        let ghost bound = FieldView { key: key@, value: value@ };
        let found = self.position(key.as_str());
        let mut entries: Vec<ContextEntry> = Vec::new();
        core::mem::swap(&mut self.entries, &mut entries);
        match found {
            Some(i) => {
                entries.set(i, ContextEntry { key, value });
            },
            None => {
                entries.push(ContextEntry { key, value });
            },
        }
        proof {
            let after = entries@.map_values(|e: ContextEntry| e@);
            assert(after =~= upsert(before, bound.key, bound.value));
            lemma_upsert_keeps_valid(before, bound.key, bound.value);
        }
        self.entries = entries;
        Ok(())
    }

    /// Appends every member to `out`, in order, each with its separator in
    /// front.
    pub fn append_to(&self, out: &mut String, pretty: bool)
        ensures
            final(out)@ == old(out)@ + rendered_fields(self@, pretty),
            keys_valid(self@),
    {
        proof {
            use_type_invariant(self);
        }
        let ghost start = out@;
        let mut i: usize = 0;
        while i < self.entries.len()
            invariant
                i <= self.entries.len(),
                out@ == start + rendered_fields(self@.take(i as int), pretty),
            decreases self.entries.len() - i,
        {
            let e = &self.entries[i];
            proof {
                assert(self@.take(i + 1).drop_last() =~= self@.take(i as int));
            }
            append_member(out, e.key.as_str(), &e.value, pretty);
            i += 1;
        }
        proof {
            assert(self@.take(self@.len() as int) =~= self@);
        }
    }
}

} // verus!
