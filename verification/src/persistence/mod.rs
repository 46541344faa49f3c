//! Rules of the JSON store of guild data: which paths it may use and how
//! large a file it reads or writes.
use crate::audio::{clone_tracks, Track};
use crate::config::{path_is_safe, safe_relative_path};
use crate::permissions::PermissionPolicy;
use vstd::prelude::*;

verus! {

/// The largest file, in bytes, that the store reads or writes.
pub const MAX_PERSISTED_BYTES: u64 = 16 * 1024 * 1024;

/// What is kept for a guild.
#[derive(Debug)]
pub struct GuildData {
    pub policy: PermissionPolicy,
    pub saved_playlists: Vec<SavedPlaylist>,
    pub default_volume: Option<u8>,
}

impl Default for GuildData {
    fn default() -> (d: Self)
        ensures
            d.policy.admin_role_ids@ == Set::<u64>::empty(),
            d.policy.allowed_channel_ids@ == Set::<u64>::empty(),
            d.policy.blocked_user_ids@ == Set::<u64>::empty(),
            d.policy.blocked_track_ids@ == Seq::<String>::empty(),
            d.saved_playlists@ == Seq::<SavedPlaylist>::empty(),
            d.default_volume is None,
    {
        GuildData {
            policy: PermissionPolicy::default(),
            saved_playlists: Vec::new(),
            default_volume: None,
        }
    }
}

/// A named list of tracks.
#[derive(Debug)]
pub struct SavedPlaylist {
    pub name: String,
    pub tracks: Vec<Track>,
}

impl Clone for SavedPlaylist {
    /// The same name and tracks.
    fn clone(&self) -> (r: Self)
        ensures
            r.name == self.name,
            r.tracks@ == self.tracks@,
    {
        SavedPlaylist { name: self.name.clone(), tracks: clone_tracks(&self.tracks) }
    }
}

#[verifier::external_type_specification]
#[verifier::external_body]
pub struct ExIoError(std::io::Error);

#[verifier::external_type_specification]
#[verifier::external_body]
pub struct ExJsonError(serde_json::Error);

/// Why the store failed.
#[derive(Debug)]
pub enum PersistenceError {
    Io(std::io::Error),
    Serde(serde_json::Error),
    UnsafePath,
    TooLarge,
}

/// A JSON file of guild data at a safe relative path.
#[derive(Debug)]
pub struct JsonStore {
    path: String,
}

impl Clone for JsonStore {
    /// A store at the same path.
    fn clone(&self) -> (r: Self)
        ensures
            r.path_view() == self.path_view(),
    {
        JsonStore { path: self.path.clone() }
    }
}

impl JsonStore {
    pub closed spec fn path_view(&self) -> Seq<char> {
        self.path@
    }

    /// A store at `path`; refused with `UnsafePath` unless the path is
    /// non-empty, relative and free of `..` components (see
    /// [`path_is_safe`]).
    pub fn new(path: &str) -> (r: Result<JsonStore, PersistenceError>)
        ensures
            r is Ok <==> path_is_safe(path@),
            r matches Ok(s) ==> s.path_view() == path@,
            r matches Err(e) ==> e is UnsafePath,
    {
        if !safe_relative_path(path) {
            return Err(PersistenceError::UnsafePath);
        }
        Ok(JsonStore { path: path.to_owned() })
    }

    /// The path of the file.
    pub fn path(&self) -> (p: &str)
        ensures
            p@ == self.path_view(),
    {
        self.path.as_str()
    }

    /// Whether a file found at the path may be read: a symbolic link is
    /// refused as unsafe, a file over [`MAX_PERSISTED_BYTES`] as too large.
    pub fn check_existing(is_symlink: bool, len: u64) -> (r: Result<(), PersistenceError>)
        ensures
            is_symlink ==> r matches Err(PersistenceError::UnsafePath),
            !is_symlink && len > MAX_PERSISTED_BYTES ==> r matches Err(PersistenceError::TooLarge),
            !is_symlink && len <= MAX_PERSISTED_BYTES ==> r is Ok,
    {
        if is_symlink || len > MAX_PERSISTED_BYTES {
            return Err(
                if is_symlink {
                    PersistenceError::UnsafePath
                } else {
                    PersistenceError::TooLarge
                },
            );
        }
        Ok(())
    }

    /// Whether serialized data of `len` bytes may be written.
    pub fn check_serialized(len: usize) -> (r: Result<(), PersistenceError>)
        ensures
            len > MAX_PERSISTED_BYTES ==> r matches Err(PersistenceError::TooLarge),
            len <= MAX_PERSISTED_BYTES ==> r is Ok,
    {
        if len as u64 > MAX_PERSISTED_BYTES {
            return Err(PersistenceError::TooLarge);
        }
        Ok(())
    }
}

} // verus!
