//! Settings consumed by the router core, and the URI-valued indirection of
//! string-typed settings.
//!
//! A string-typed setting may name its value indirectly: `env://NAME?fallback`
//! resolves to the environment variable `NAME`, falling back to the text
//! after the `?` when the variable is unset; `file://PATH` resolves to the
//! file's contents; any other value stands for itself. [`classify_setting`]
//! reads the form; the environment and filesystem lookups are outside work,
//! and [`resolved_value`] turns their outcome into the setting's value.

use vstd::prelude::*;
use vstd::string::StrSliceExecFns;

use crate::text::{find_char, has_prefix, str_starts_with};

verus! {

/// How one string-typed setting value is to be resolved.
pub enum SettingRef {
    /// `env://NAME?fallback`: the environment variable `NAME`, with an
    /// optional fallback for when it is unset.
    Env {
        /// Name of the environment variable.
        name: String,
        /// Value to use when the variable is unset, if one was given.
        fallback: Option<String>,
    },
    /// `file://PATH`: the contents of the file at `PATH`.
    File {
        /// Path of the file to read.
        path: String,
    },
    /// Any other value: the value itself.
    Literal {
        /// The setting's value, as written.
        value: String,
    },
}

/// The indirection marker of an environment-variable setting.
pub open spec fn env_marker() -> Seq<char> {
    "env://"@
}

/// The indirection marker of a file-contents setting.
pub open spec fn file_marker() -> Seq<char> {
    "file://"@
}

/// Reads the form of one string-typed setting value: an `env://` reference
/// with its optional `?fallback`, a `file://` reference, or a literal.
#[verifier::loop_isolation(false)]
pub fn classify_setting(value: &str) -> (r: SettingRef)
    ensures
        has_prefix(value@, env_marker()) ==> {
            let body = value@.skip(env_marker().len() as int);
            &&& r matches SettingRef::Env { name, fallback }
            &&& (match fallback {
                Some(f) => exists|q: int|
                    {
                        &&& 0 <= q < body.len()
                        &&& body[q] == '?'
                        &&& (forall|k: int| 0 <= k < q ==> body[k] != '?')
                        &&& name@ == body.take(q)
                        &&& f@ == body.skip(q + 1)
                    },
                None => name@ == body && (forall|k: int| 0 <= k < body.len() ==> body[k] != '?'),
            })
        },
        !has_prefix(value@, env_marker()) && has_prefix(value@, file_marker()) ==> (r matches
        SettingRef::File { path } && path@ == value@.skip(file_marker().len() as int)),
        !has_prefix(value@, env_marker()) && !has_prefix(value@, file_marker()) ==> (r matches
        SettingRef::Literal { value: v } && v@ == value@),
{
    let n = value.unicode_len();
    if str_starts_with(value, "env://") {
        proof {
            reveal_strlit("env://");
        }
        let body = value.substring_char(6, n);
        match find_char(body, '?') {
            Some(q) => {
                let name = body.substring_char(0, q).to_owned();
                let fallback = body.substring_char(q + 1, body.unicode_len()).to_owned();
                proof {
                    let spec_body = value@.skip(env_marker().len() as int);
                    assert(body@ =~= spec_body);
                    assert(name@ =~= spec_body.take(q as int));
                    assert(fallback@ =~= spec_body.skip(q + 1));
                }
                SettingRef::Env { name, fallback: Some(fallback) }
            }
            None => {
                proof {
                    assert(body@ =~= value@.skip(env_marker().len() as int));
                }
                SettingRef::Env { name: body.to_owned(), fallback: None }
            }
        }
    } else if str_starts_with(value, "file://") {
        proof {
            reveal_strlit("file://");
        }
        let path = value.substring_char(7, n).to_owned();
        proof {
            assert(path@ =~= value@.skip(file_marker().len() as int));
        }
        SettingRef::File { path }
    } else {
        SettingRef::Literal { value: value.to_owned() }
    }
}

/// Why a setting could not be resolved.
#[derive(Clone, Copy, Debug, PartialEq, Eq, Structural)]
pub enum SettingError {
    /// An `env://` reference to an unset variable, with no fallback given.
    MissingVariable,
    /// A `file://` reference whose file could not be read.
    UnreadableFile,
}

/// The value of one setting, given the outcome of the outside lookup its
/// form calls for: for `env://`, the variable's value if set; for
/// `file://`, the file's contents if readable. A literal ignores the lookup.
pub fn resolved_value(reference: SettingRef, lookup: Option<String>) -> (r: Result<
    String,
    SettingError,
>)
    ensures
        reference matches SettingRef::Env { name, fallback } ==> r == (match lookup {
            Some(v) => Ok::<String, SettingError>(v),
            None => match fallback {
                Some(f) => Ok::<String, SettingError>(f),
                None => Err::<String, SettingError>(SettingError::MissingVariable),
            },
        }),
        reference matches SettingRef::File { path } ==> r == (match lookup {
            Some(v) => Ok::<String, SettingError>(v),
            None => Err::<String, SettingError>(SettingError::UnreadableFile),
        }),
        reference matches SettingRef::Literal { value } ==> r == Ok::<String, SettingError>(value),
{
    match reference {
        SettingRef::Env { name: _, fallback } => match lookup {
            Some(v) => Ok(v),
            None => match fallback {
                Some(f) => Ok(f),
                None => Err(SettingError::MissingVariable),
            },
        },
        SettingRef::File { path: _ } => match lookup {
            Some(v) => Ok(v),
            None => Err(SettingError::UnreadableFile),
        },
        SettingRef::Literal { value } => Ok(value),
    }
}

/// Reads a boolean setting: exactly `true` and `false` are accepted, as the
/// debug flag demands.
pub fn parse_bool_setting(s: &str) -> (r: Option<bool>)
    ensures
        r == (if s@ == "true"@ {
            Some(true)
        } else if s@ == "false"@ {
            Some(false)
        } else {
            None::<bool>
        }),
{
    if crate::text::str_eq(s, "true") {
        Some(true)
    } else if crate::text::str_eq(s, "false") {
        Some(false)
    } else {
        None
    }
}

/// Media-storage settings: which backend serves media, and the file
/// backend's root path.
pub struct StorageMediaSettings {
    /// The storage backend selector; media is served from disk when it is
    /// `file`.
    pub backend: String,
    /// Settings of the file backend.
    pub file: StorageMediaFileSettings,
}

/// Settings of the file media backend.
pub struct StorageMediaFileSettings {
    /// Root directory that media files are served from.
    pub path: String,
}

/// Storage settings consumed by the asset router.
pub struct StorageSettings {
    /// Media-storage settings.
    pub media: StorageMediaSettings,
}

/// The media route to mount, if any: media files are served from the
/// configured path exactly when the media backend is `file`.
pub fn media_route(storage: &StorageSettings) -> (r: Option<String>)
    ensures
        r is Some <==> storage.media.backend@ == "file"@,
        r matches Some(path) ==> path@ == storage.media.file.path@,
{
    if crate::text::str_eq(storage.media.backend.as_str(), "file") {
        Some(storage.media.file.path.clone())
    } else {
        None
    }
}

} // verus!
