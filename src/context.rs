//! The caller's per-request context: a bag of keyed values that travels with
//! a request and comes back with its response, plus the count of calls made
//! with it that are in flight.
use vstd::prelude::*;

verus! {

/// What a context holds: its entries, keys unique, and the number of calls
/// made with it that are in flight.
pub struct ContextView {
    pub entries: Seq<(Seq<char>, Seq<char>)>,
    pub active_requests: nat,
}

pub open spec fn has_key(entries: Seq<(Seq<char>, Seq<char>)>, key: Seq<char>) -> bool {
    exists|i: int| 0 <= i < entries.len() && (#[trigger] entries[i]).0 == key
}

pub open spec fn keys_unique(entries: Seq<(Seq<char>, Seq<char>)>) -> bool {
    forall|i: int, j: int|
        0 <= i < entries.len() && 0 <= j < entries.len() && (#[trigger] entries[i]).0 == (
        #[trigger] entries[j]).0 ==> i == j
}

/// The key whose presence asks for the outbound and inbound headers to be logged.
pub open spec fn display_headers_key() -> Seq<char> {
    "apollo_telemetry::logging::display_headers"@
}

/// The key whose presence asks for the outbound body to be logged.
pub open spec fn display_body_key() -> Seq<char> {
    "apollo_telemetry::logging::display_body"@
}

pub struct Context {
    entries: Vec<(String, String)>,
    active_requests: u64,
}

impl View for Context {
    type V = ContextView;

    closed spec fn view(&self) -> ContextView {
        ContextView {
            entries: self.entries@.map_values(|e: (String, String)| (e.0@, e.1@)),
            active_requests: self.active_requests as nat,
        }
    }
}

impl Context {
    #[verifier::type_invariant]
    spec fn keys_are_unique(&self) -> bool {
        keys_unique(self@.entries)
    }

    /// An empty context, with no call in flight.
    pub fn new() -> (r: Context)
        ensures
            r@.entries == Seq::<(Seq<char>, Seq<char>)>::empty(),
            r@.active_requests == 0,
    {
        let r = Context { entries: Vec::new(), active_requests: 0 };
        assert(r@.entries =~= Seq::<(Seq<char>, Seq<char>)>::empty());
        r
    }

    fn index_of(&self, key: &String) -> (r: Option<usize>)
        ensures
            match r {
                Some(i) => i < self@.entries.len() && self@.entries[i as int].0 == key@,
                None => !has_key(self@.entries, key@),
            },
    {
        let mut i: usize = 0;
        while i < self.entries.len()
            invariant
                i <= self@.entries.len(),
                forall|j: int| 0 <= j < i ==> (#[trigger] self@.entries[j]).0 != key@,
            decreases self@.entries.len() - i,
        {
            assert(self@.entries[i as int].0 == self.entries@[i as int].0@);
            if self.entries[i].0 == *key {
                return Some(i);
            }
            i = i + 1;
        }
        None
    }

    /// Whether an entry under `key` is present.
    pub fn contains_key(&self, key: &String) -> (r: bool)
        ensures
            r == has_key(self@.entries, key@),
    {
        self.index_of(key).is_some()
    }

    /// The value under `key`, if present.
    pub fn get(&self, key: &String) -> (r: Option<&String>)
        ensures
            match r {
                Some(v) => exists|i: int|
                    0 <= i < self@.entries.len() && #[trigger] self@.entries[i] == (key@, v@),
                None => !has_key(self@.entries, key@),
            },
    {
        match self.index_of(key) {
            Some(i) => {
                assert(self@.entries[i as int] == (key@, self.entries@[i as int].1@));
                Some(&self.entries[i].1)
            },
            None => None,
        }
    }

    /// Sets the value under `key`: an entry already under it takes the value
    /// in its place; otherwise the entry is added after the others.
    pub fn insert(&mut self, key: String, value: String)
        ensures
            final(self)@.active_requests == old(self)@.active_requests,
            has_key(old(self)@.entries, key@) ==> exists|i: int|
                0 <= i < old(self)@.entries.len() && (#[trigger] old(self)@.entries[i]).0 == key@
                    && final(self)@.entries == old(self)@.entries.update(i, (key@, value@)),
            !has_key(old(self)@.entries, key@) ==> final(self)@.entries == old(self)@.entries.push(
                (key@, value@),
            ),
    {
        proof {
            use_type_invariant(&*self);
        }
        let ghost old_entries = self@.entries;
        let found = self.index_of(&key);
        let mut entries: Vec<(String, String)> = Vec::new();
        std::mem::swap(&mut entries, &mut self.entries);
        match found {
            Some(i) => {
                entries.set(i, (key, value));
            },
            None => {
                entries.push((key, value));
            },
        }
        let ghost new_entries = entries@.map_values(|e: (String, String)| (e.0@, e.1@));
        proof {
            match found {
                Some(i) => {
                    assert(new_entries =~= old_entries.update(i as int, (key@, value@)));
                },
                None => {
                    assert(new_entries =~= old_entries.push((key@, value@)));
                },
            }
        }
        self.entries = entries;
    }

    /// Whether a call made with this context is in flight.
    pub fn is_active(&self) -> (r: bool)
        ensures
            r == (self@.active_requests > 0),
    {
        self.active_requests > 0
    }

    /// The number of calls made with this context that are in flight.
    pub fn active_requests(&self) -> (r: u64)
        ensures
            r == self@.active_requests,
    {
        self.active_requests
    }

    /// Records one more call made with this context as in flight.
    pub fn enter_active_request(&mut self)
        requires
            old(self)@.active_requests < u64::MAX,
        ensures
            final(self)@ == (ContextView {
                active_requests: old(self)@.active_requests + 1,
                ..old(self)@
            }),
    {
        proof {
            use_type_invariant(&*self);
        }
        self.active_requests = self.active_requests + 1;
    }

    /// Records that one call made with this context has finished.
    pub fn leave_active_request(&mut self)
        requires
            old(self)@.active_requests > 0,
        ensures
            final(self)@ == (ContextView {
                active_requests: (old(self)@.active_requests - 1) as nat,
                ..old(self)@
            }),
    {
        proof {
            use_type_invariant(&*self);
        }
        self.active_requests = self.active_requests - 1;
    }

    /// Whether the caller asked for headers to be logged.
    pub fn displays_headers(&self) -> (r: bool)
        ensures
            r == has_key(self@.entries, display_headers_key()),
    {
        let key = "apollo_telemetry::logging::display_headers".to_owned();
        self.contains_key(&key)
    }

    /// Whether the caller asked for the outbound body to be logged.
    pub fn displays_body(&self) -> (r: bool)
        ensures
            r == has_key(self@.entries, display_body_key()),
    {
        let key = "apollo_telemetry::logging::display_body".to_owned();
        self.contains_key(&key)
    }
}

} // verus!
