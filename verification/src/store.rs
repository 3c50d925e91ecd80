//! The stored credential: one record of the settings file.
//!
//! The settings file is a key-value store of JSON values. This module reads
//! and changes the one record it knows, the API key, on an image of the file
//! that the application loads and writes back.

use vstd::prelude::*;
use crate::error::{Error, StoreOp, StoreStep};

verus! {

/// The settings file of the application.
pub const STORE_FILE: &'static str = "settings.json";

/// The key under which the credential is stored.
pub const API_KEY_RECORD: &'static str = "resend_api_key";

/// A JSON value of the settings file, as far as this library tells values
/// apart: a text, or anything else.
#[derive(Debug, Clone, PartialEq, Eq)]
pub enum StoredValue {
    Text(String),
    Other,
}

/// The mathematical value of a [`StoredValue`].
pub enum StoredValueView {
    Text(Seq<char>),
    Other,
}

impl DeepView for StoredValue {
    type V = StoredValueView;

    open spec fn deep_view(&self) -> StoredValueView {
        match self {
            StoredValue::Text(text) => StoredValueView::Text(text@),
            StoredValue::Other => StoredValueView::Other,
        }
    }
}

impl View for StoredValue {
    type V = StoredValueView;

    open spec fn view(&self) -> StoredValueView {
        self.deep_view()
    }
}

/// The image of the settings file: what it holds under the credential's key,
/// if anything. There is one slot, so at most one credential is stored, and
/// an empty slot is an ordinary state.
#[derive(Debug, Clone, PartialEq, Eq)]
pub struct Settings {
    pub api_key: Option<StoredValue>,
}

/// The mathematical value of [`Settings`].
pub struct SettingsView {
    pub api_key: Option<StoredValueView>,
}

impl View for Settings {
    type V = SettingsView;

    open spec fn view(&self) -> SettingsView {
        SettingsView { api_key: self.api_key.deep_view() }
    }
}

impl SettingsView {
    /// Settings that hold no credential.
    pub open spec fn empty() -> SettingsView {
        SettingsView { api_key: None }
    }

    /// Whether a record is stored under the credential's key, whatever it
    /// holds.
    pub open spec fn has(self) -> bool {
        self.api_key is Some
    }

    /// The stored credential: none where the slot is empty, a failure where
    /// the record is not a text.
    pub open spec fn get(self) -> Result<Option<Seq<char>>, Error> {
        match self.api_key {
            None => Ok(None),
            Some(StoredValueView::Text(api_key)) => Ok(Some(api_key)),
            Some(StoredValueView::Other) => Err(Error::CredentialCorrupt),
        }
    }

    /// The settings after `api_key` was stored: it takes the place of
    /// whatever the slot held.
    pub open spec fn save(self, api_key: Seq<char>) -> SettingsView {
        SettingsView { api_key: Some(StoredValueView::Text(api_key)) }
    }

    /// The settings after the record was removed.
    pub open spec fn delete(self) -> SettingsView {
        SettingsView { api_key: None }
    }

    /// The credential for a call on the delivery service: as [`Self::get`],
    /// but an empty slot is a failure too.
    pub open spec fn require(self) -> Result<Seq<char>, Error> {
        match self.get() {
            Ok(Some(api_key)) => Ok(api_key),
            Ok(None) => Err(Error::CredentialMissing),
            Err(error) => Err(error),
        }
    }
}

impl Settings {
    /// Settings that hold no credential.
    pub fn new() -> (settings: Settings)
        ensures
            settings@ == SettingsView::empty(),
    {
        Settings { api_key: None }
    }
}

/// The settings that an operation works on, from what opening the settings
/// file gave: its image, or the store's words on why it could not be opened.
/// An operation whose settings file cannot be opened fails there.
pub fn loaded(during: StoreOp, opened: Result<Settings, String>) -> (result: Result<
    Settings,
    Error,
>)
    ensures
        match opened {
            Ok(settings) => result == Ok::<Settings, Error>(settings),
            Err(detail) => result == Err::<Settings, Error>(
                (Error::StoreUnavailable { during, step: StoreStep::Load, detail }),
            ),
        },
{
    match opened {
        Ok(settings) => Ok(settings),
        Err(detail) => Err(Error::StoreUnavailable { during, step: StoreStep::Load, detail }),
    }
}

/// The end of an operation that changed the settings, from what writing
/// them to disk gave: nothing, or the store's words on why it could not
/// write. An operation whose change does not reach the disk has failed.
pub fn flushed(during: StoreOp, written: Result<(), String>) -> (result: Result<(), Error>)
    ensures
        match written {
            Ok(_) => result == Ok::<(), Error>(()),
            Err(detail) => result == Err::<(), Error>(
                (Error::StoreUnavailable { during, step: StoreStep::Save, detail }),
            ),
        },
{
    match written {
        Ok(_) => Ok(()),
        Err(detail) => Err(Error::StoreUnavailable { during, step: StoreStep::Save, detail }),
    }
}

/// Whether a credential record is stored. A record counts whatever it holds.
pub fn has_api_key(settings: &Settings) -> (present: bool)
    ensures
        present == settings@.has(),
{
    settings.api_key.is_some()
}

/// Stores `api_key` as the credential, in place of what was stored before.
pub fn save_api_key(settings: &mut Settings, api_key: String)
    ensures
        final(settings)@ == old(settings)@.save(api_key@),
{
    settings.api_key = Some(StoredValue::Text(api_key));
}

/// The stored credential, if there is one. A record that is not a text is
/// reported as corrupt.
pub fn get_api_key(settings: &Settings) -> (result: Result<Option<String>, Error>)
    ensures
        match result {
            Ok(found) => settings@.get() == Ok::<Option<Seq<char>>, Error>(found.deep_view()),
            Err(error) => settings@.get() == Err::<Option<Seq<char>>, Error>(error),
        },
{
    match &settings.api_key {
        Some(StoredValue::Text(api_key)) => Ok(Some(api_key.clone())),
        Some(StoredValue::Other) => Err(Error::CredentialCorrupt),
        None => Ok(None),
    }
}

/// Removes the credential. Returns whether there was a record to remove;
/// that there was none is no failure.
pub fn delete_api_key(settings: &mut Settings) -> (removed: bool)
    ensures
        final(settings)@ == old(settings)@.delete(),
        removed == old(settings)@.has(),
{
    let removed = settings.api_key.is_some();
    settings.api_key = None;
    removed
}

/// The credential that a call on the delivery service needs. Where none is
/// stored the call is not to be made: there is no key to make it with.
pub fn require_api_key(settings: &Settings) -> (result: Result<String, Error>)
    ensures
        match result {
            Ok(api_key) => settings@.require() == Ok::<Seq<char>, Error>(api_key@),
            Err(error) => settings@.require() == Err::<Seq<char>, Error>(error),
        },
{
    match get_api_key(settings) {
        Ok(Some(api_key)) => Ok(api_key),
        Ok(None) => Err(Error::CredentialMissing),
        Err(error) => Err(error),
    }
}

/// Settings that were never written to hold no credential. Once one is
/// saved, a record is there, and a lookup returns what was saved.
pub proof fn law_saved_key_is_found(settings: SettingsView, api_key: Seq<char>)
    ensures
        !SettingsView::empty().has(),
        settings.save(api_key).has(),
        settings.save(api_key).get() == Ok::<Option<Seq<char>>, Error>(Some(api_key)),
{
}

/// After a removal no record is there, whether or not one was there before;
/// removing from empty settings leaves them empty.
pub proof fn law_deleted_key_is_gone(settings: SettingsView)
    ensures
        !settings.delete().has(),
        settings.delete().get() == Ok::<Option<Seq<char>>, Error>(None),
        SettingsView::empty().delete() == SettingsView::empty(),
{
}

/// A second save overwrites the first: only the latest credential is stored.
pub proof fn law_latest_save_wins(settings: SettingsView, first: Seq<char>, second: Seq<char>)
    ensures
        settings.save(first).save(second) == settings.save(second),
        settings.save(first).save(second).get() == Ok::<Option<Seq<char>>, Error>(Some(second)),
{
}

/// Without a stored credential a call on the delivery service fails for
/// want of one, and for no other reason.
pub proof fn law_no_credential_no_call(settings: SettingsView)
    requires
        !settings.has(),
    ensures
        settings.require() == Err::<Seq<char>, Error>(Error::CredentialMissing),
{
}

} // verus!
