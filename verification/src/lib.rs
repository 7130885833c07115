//! A plugin development kit for the MacroQuest game-client host.
//!
//! The host process loads a plugin as a dynamic library and calls a fixed
//! set of named exports at defined lifecycle points. This crate models that
//! contract and proves the pieces that make it safe to live next to a host
//! one does not own:
//!
//! * the fixed table of callback kinds — export names, native parameter and
//!   return shapes, and the matching plugin method names ([`hook`]);
//! * total, infallible decoding of host-supplied values — game-state codes,
//!   chat-channel codes, and C strings that may hold invalid UTF-8 ([`eq`],
//!   [`hook`]);
//! * the process-wide plugin slot and its lifecycle state machine, with the
//!   fault-isolation decisions every generated export must make ([`plugin`]);
//! * the scaffolding that turns a plugin type and its implemented hook
//!   methods into the exact export surface the host demands ([`scaffold`]);
//! * console and chat-line handling, including recoloring ANSI escape codes
//!   into the host's own color codes ([`mq`]).
//!
//! The thin native shell around these — the raw C-ABI export functions,
//! the unwind-catching boundary, and the calls into the host's own library
//! — is ordinary unverifiable glue and lives outside this crate.

use vstd::prelude::*;

pub mod build_config;
pub mod eq;
pub mod mq;
pub mod hook;
pub mod plugin;
pub mod scaffold;
pub mod text;

use vstd::utf8::{decode_utf8, valid_utf8};

verus! {

/// A model of the host's live-entity record, holding the fields this crate
/// reads from it. The real record is owned by the host; the glue layer fills
/// this view before dispatching a hook.
#[derive(Clone, Debug)]
pub struct PlayerClient {
    /// The entity's name.
    pub name: String,
}

impl PlayerClient {
    /// The entity's name.
    pub fn name(&self) -> (name: &str)
        ensures
            name@ == self.name@,
    {
        self.name.as_str()
    }
}

/// A model of the host's ground-item record, holding the fields this crate
/// reads from it. The real record is owned by the host; the glue layer fills
/// this view before dispatching a hook.
#[derive(Clone, Debug)]
pub struct EQGroundItem {
    /// The ground item's name.
    pub name: String,
}

impl EQGroundItem {
    /// The ground item's name.
    pub fn name(&self) -> (name: &str)
        ensures
            name@ == self.name@,
    {
        self.name.as_str()
    }
}

/// A model of the host's own per-plugin record, holding the fields this
/// crate reads from it.
#[derive(Clone, Debug)]
pub struct MQPlugin {
    /// The name the host registered the plugin under.
    pub name: String,
}

impl MQPlugin {
    /// The name the host registered the plugin under.
    pub fn plugin_name(&self) -> (name: &str)
        ensures
            name@ == self.name@,
    {
        self.name.as_str()
    }
}

/// Detects whether we're currently running on "MQNext".
///
/// This always returns `true`: only MQNext (now known simply as MacroQuest)
/// is supported. It backs the `IsBuiltForNext` marker symbol that every
/// plugin must export.
pub fn is_mq_next() -> (r: bool)
    ensures
        r == true,
{
    true
}

/// An EverQuest version (build date + time) with trailing null byte.
///
/// The layout is host-mandated: exactly 20 content bytes of the form
/// `Jan 02 2006 15:04:05` followed by one null byte. The buffer backs the
/// `EverQuestVersion` marker symbol that every plugin must export.
pub struct EQVersion(pub [u8; 21]);

impl EQVersion {
    /// Return the build date portion of the [`EQVersion`].
    ///
    /// The first eleven bytes must hold valid UTF-8 (they are ASCII in every
    /// buffer the host produces).
    pub fn build_date(&self) -> (date: &str)
        requires
            valid_utf8(self.0@.subrange(0, 11)),
        ensures
            date@ == decode_utf8(self.0@.subrange(0, 11)),
    {
        let bytes = &self.0[0..11];
        match crate::text::bytes_to_str(bytes) {
            Some(date) => date,
            None => {
                proof {
                    assert(false);
                }
                ""
            },
        }
    }

    /// Return the build time portion of the [`EQVersion`].
    ///
    /// Bytes twelve through twenty must hold valid UTF-8 (they are ASCII in
    /// every buffer the host produces).
    pub fn build_time(&self) -> (time: &str)
        requires
            valid_utf8(self.0@.subrange(12, 20)),
        ensures
            time@ == decode_utf8(self.0@.subrange(12, 20)),
    {
        let bytes = &self.0[12..20];
        match crate::text::bytes_to_str(bytes) {
            Some(time) => time,
            None => {
                proof {
                    assert(false);
                }
                ""
            },
        }
    }

    /// Build the version buffer from the twenty-byte version stamp read out
    /// of the targeted host installation, appending the mandated null byte.
    pub fn from_stamp(stamp: &[u8]) -> (r: Option<EQVersion>)
        ensures
            r is Some <==> stamp@.len() == 20,
            r matches Some(v) ==> v.0@ == stamp@ + seq![0u8],
    {
        if stamp.len() != 20 {
            return None;
        }
        let mut buf = [0u8; 21];
        let mut i: usize = 0;
        while i < 20
            invariant
                i <= 20,
                stamp@.len() == 20,
                buf@.len() == 21,
                forall|j: int| 0 <= j < i ==> buf@[j] == stamp@[j],
                forall|j: int| i <= j < 21 ==> buf@[j] == 0u8,
            decreases 20 - i,
        {
            buf[i] = stamp[i];
            i += 1;
        }
        proof {
            assert(buf@ =~= stamp@ + seq![0u8]);
        }
        Some(EQVersion(buf))
    }
}

/// The version of EverQuest that a plugin is built against, as a value.
///
/// The twenty-one bytes come from the build-time stamp of the targeted host
/// installation; the glue layer reads the stamp and bakes the buffer into
/// the compiled library as constant data.
pub fn eq_version(bytes: [u8; 21]) -> (v: EQVersion)
    ensures
        v.0@ == bytes@,
{
    EQVersion(bytes)
}

} // verus!
