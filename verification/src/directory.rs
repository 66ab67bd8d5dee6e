//! The user directory: the records of the registered users, one for each
//! e-mail address.

use crate::credential::{issued, PasswordDigest};
use crate::domain::{valid_email, valid_name, UserEmail, UserName};
use vstd::hash_map::StringHashMap;
use vstd::prelude::*;

verus! {

/// What is kept of a registered user. The password is kept as its digest.
pub struct UserRecord {
    pub name: UserName,
    pub email: UserEmail,
    pub digest: PasswordDigest,
}

/// A record as contracts see it: the text of each field.
pub struct RecordView {
    pub name: Seq<char>,
    pub email: Seq<char>,
    pub digest: Seq<char>,
}

impl View for UserRecord {
    type V = RecordView;

    open spec fn view(&self) -> RecordView {
        RecordView { name: self.name@, email: self.email@, digest: self.digest@ }
    }
}

/// The directory as contracts see it: each registered e-mail address with
/// the view of its record.
pub type Directory = Map<Seq<char>, RecordView>;

/// Every record stands under its own e-mail address, and holds a valid
/// address, a valid name and a digest that was computed from a password.
/// Since an address is the key of one record at most, no two records share
/// an address.
pub open spec fn keyed_by_email(records: Directory) -> bool {
    forall|key: Seq<char>| #[trigger]
        records.contains_key(key) ==> {
            &&& records[key].email == key
            &&& valid_email(key)
            &&& valid_name(records[key].name)
            &&& issued(records[key].digest)
        }
}

/// Why the directory refused a change.
#[derive(Clone, Copy, Debug, PartialEq, Eq, Structural)]
pub enum DirectoryError {
    /// A record with this e-mail address exists already.
    EmailTaken,
    /// No record has this e-mail address.
    NotFound,
}

/// The registered users, keyed by e-mail address. Its view is the map from
/// each registered address to the view of its record.
pub struct UserDirectory {
    records: StringHashMap<UserRecord>,
}

impl View for UserDirectory {
    type V = Directory;

    closed spec fn view(&self) -> Directory {
        views_of(self.records@)
    }
}

/// The map from each key of `records` to the view of its record.
spec fn views_of(records: Map<Seq<char>, UserRecord>) -> Directory {
    Map::new(|key: Seq<char>| records.contains_key(key), |key: Seq<char>| records[key]@)
}

impl UserDirectory {
    #[verifier::type_invariant]
    pub open spec fn well_formed(self) -> bool {
        keyed_by_email(self@)
    }

    /// A directory without users.
    pub fn new() -> (directory: UserDirectory)
        ensures
            directory@ == Map::<Seq<char>, RecordView>::empty(),
    {
        UserDirectory { records: StringHashMap::new() }
    }

    /// The number of registered users.
    pub fn len(&self) -> (n: usize)
        ensures
            n == self@.len(),
    {
        broadcast use vstd::hash_map::group_hash_map_axioms;

        assert(self@.dom() =~= self.records@.dom());
        self.records.len()
    }

    /// Whether a user is registered under `email`.
    pub fn contains(&self, email: &str) -> (found: bool)
        ensures
            found == self@.contains_key(email@),
            keyed_by_email(self@),
    {
        proof {
            use_type_invariant(self);
        }
        self.records.contains_key(email)
    }

    /// The record registered under `email`, if there is one.
    pub fn find_by_email(&self, email: &str) -> (found: Option<&UserRecord>)
        ensures
            match found {
                Some(record) => self@.contains_key(email@) && record@ == self@[email@]
                    && record.email@ == email@,
                None => !self@.contains_key(email@),
            },
            keyed_by_email(self@),
    {
        proof {
            use_type_invariant(self);
        }
        self.records.get(email)
    }

    /// Adds `record` unless its e-mail address is registered already. On
    /// refusal the directory is unchanged.
    pub fn insert(&mut self, record: UserRecord) -> (r: Result<(), DirectoryError>)
        ensures
            match r {
                Ok(()) => !old(self)@.contains_key(record.email@) && final(self)@ == old(self)@.insert(
                    record.email@,
                    record@,
                ),
                Err(reason) => reason == DirectoryError::EmailTaken && old(self)@.contains_key(
                    record.email@,
                ) && final(self)@ == old(self)@,
            },
            keyed_by_email(old(self)@),
            keyed_by_email(final(self)@),
    {
        proof {
            use_type_invariant(&*self);
        }
        if self.records.contains_key(record.email.as_str()) {
            return Err(DirectoryError::EmailTaken);
        }
        let ghost before = self@;
        let ghost added = record@;
        let key = record.email.as_str().to_owned();
        proof {
            use_type_invariant(&record.name);
            use_type_invariant(&record.email);
            use_type_invariant(&record.digest);
        }
        // The map is taken out while it changes, so that the directory is
        // well formed at every step.
        let mut records = StringHashMap::new();
        core::mem::swap(&mut self.records, &mut records);
        records.insert(key, record);
        assert(views_of(records@) =~= before.insert(added.email, added));
        core::mem::swap(&mut self.records, &mut records);
        Ok(())
    }

    /// Replaces the digest of the record under `email` and keeps the rest of
    /// it. Without such a record the directory is unchanged.
    pub fn update_password_hash(&mut self, email: &str, digest: PasswordDigest) -> (r: Result<
        (),
        DirectoryError,
    >)
        ensures
            match r {
                Ok(()) => old(self)@.contains_key(email@) && final(self)@ == old(self)@.insert(
                    email@,
                    RecordView {
                        name: old(self)@[email@].name,
                        email: email@,
                        digest: digest@,
                    },
                ),
                Err(reason) => reason == DirectoryError::NotFound && !old(self)@.contains_key(
                    email@,
                ) && final(self)@ == old(self)@,
            },
            keyed_by_email(old(self)@),
            keyed_by_email(final(self)@),
    {
        proof {
            use_type_invariant(&*self);
            use_type_invariant(&digest);
        }
        let ghost before = self@;
        let ghost fresh = digest@;
        let replaced = match self.records.get(email) {
            None => {
                return Err(DirectoryError::NotFound);
            },
            Some(record) => {
                UserRecord { name: record.name.clone(), email: record.email.clone(), digest }
            },
        };
        let key = replaced.email.as_str().to_owned();
        // As in `insert`, the map is taken out while it changes.
        let mut records = StringHashMap::new();
        core::mem::swap(&mut self.records, &mut records);
        records.insert(key, replaced);
        assert(views_of(records@) =~= before.insert(
            email@,
            RecordView { name: before[email@].name, email: email@, digest: fresh },
        ));
        core::mem::swap(&mut self.records, &mut records);
        Ok(())
    }
}

} // verus!
