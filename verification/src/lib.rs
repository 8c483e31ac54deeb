//! A utility library for resolving the standard per-user base directories
//! (data, config, cache, runtime) from environment-variable values, with
//! conventional fallbacks under the home directory, and for validating that a
//! candidate runtime directory is private to the calling user.
//!
//! The resolvers are pure: every entry point takes the looked-up value of the
//! relevant environment variable (and, where a fallback is possible, the home
//! directory) as an explicit argument, so a caller can supply either the real
//! process environment or a synthetic one.

use vstd::prelude::*;

pub mod error;
pub mod paths;

pub use error::Error;
pub use error::ErrorKind;
pub use error::XdgError;

pub use paths::is_absolute_path;
pub use paths::join_spec;
pub use paths::split_sep;
pub use paths::seq_views;

use paths::is_absolute;
use paths::join_path;
use paths::split_path_list;

verus! {

/// The view of an optionally-present borrowed string.
pub open spec fn opt_str_view(o: Option<&str>) -> Option<Seq<char>> {
    match o {
        Some(s) => Some(s@),
        None => None,
    }
}

/// The view of an optionally-present owned string.
pub open spec fn opt_string_view(o: Option<String>) -> Option<Seq<char>> {
    match o {
        Some(s) => Some(s@),
        None => None,
    }
}

/// What [`resolve_optional`] returns: the candidate value itself when it is
/// present, non-empty and absolute, and nothing otherwise.
pub open spec fn resolve_optional_spec(value: Option<Seq<char>>) -> Option<Seq<char>> {
    match value {
        Some(v) => if is_absolute_path(v) {
            Some(v)
        } else {
            None
        },
        None => None,
    }
}

/// What [`resolve_single`] returns: the candidate value itself when it is
/// present, non-empty and absolute; otherwise the fixed default joined onto
/// the home directory, which must then be known.
pub open spec fn resolve_single_spec(
    value: Option<Seq<char>>,
    home: Option<Seq<char>>,
    default: Seq<char>,
) -> Result<Seq<char>, XdgError> {
    match resolve_optional_spec(value) {
        Some(p) => Ok(p),
        None => match home {
            Some(h) => Ok(join_spec(h, default)),
            None => Err(XdgError::NoHomeDir),
        },
    }
}

/// What [`resolve_list`] returns: the colon-split of the candidate value when
/// it is present and non-empty, and the colon-split of the fixed default
/// otherwise.
pub open spec fn resolve_list_spec(value: Option<Seq<char>>, default: Seq<char>) -> Seq<
    Seq<char>,
> {
    match value {
        Some(v) => if v.len() > 0 {
            split_sep(v, ':')
        } else {
            split_sep(default, ':')
        },
        None => split_sep(default, ':'),
    }
}

/// Resolve a directory that has no default: the candidate environment value
/// is returned exactly when it is present, non-empty and absolute, and
/// absence is an ordinary outcome, not an error.
pub fn resolve_optional(value: Option<&str>) -> (r: Option<String>)
    ensures
        opt_string_view(r) == resolve_optional_spec(opt_str_view(value)),
{
    match value {
        Some(v) => if is_absolute(v) {
            Some(v.to_owned())
        } else {
            None
        },
        None => None,
    }
}

/// Resolve a single directory: the candidate environment value itself when it
/// is present, non-empty and absolute; otherwise `default` joined onto the
/// home directory. Fails with [`XdgError::NoHomeDir`] exactly when the
/// fallback is required and no home directory is known.
pub fn resolve_single(value: Option<&str>, home: Option<&str>, default: &str) -> (r: Result<
    String,
    Error,
>)
    ensures
        match resolve_single_spec(opt_str_view(value), opt_str_view(home), default@) {
            Ok(p) => r matches Ok(s) && s@ == p,
            Err(x) => r matches Err(e) && e.kind_spec() == ErrorKind::Xdg(x),
        },
{
    match resolve_optional(value) {
        Some(p) => Ok(p),
        None => match home {
            Some(h) => Ok(join_path(h, default)),
            None => Err(Error::new(ErrorKind::Xdg(XdgError::NoHomeDir))),
        },
    }
}

/// Resolve a search path: the colon-split of the candidate environment value
/// when it is present and non-empty, and of `default` otherwise. Segments are
/// kept verbatim and in order, and the result is never empty. This never
/// fails and needs no home directory.
pub fn resolve_list(value: Option<&str>, default: &str) -> (r: Vec<String>)
    ensures
        seq_views(r@) == resolve_list_spec(opt_str_view(value), default@),
        r@.len() >= 1,
{
    match value {
        Some(v) => if v.is_empty() {
            split_path_list(default)
        } else {
            split_path_list(v)
        },
        None => split_path_list(default),
    }
}

/// What a metadata read reports of a runtime-directory candidate: the id of
/// the owning user and the permission bits of the directory's access mode
/// (the low nine bits and the setuid, setgid and sticky bits; no file-type
/// bits).
#[derive(Clone, Copy, Debug, PartialEq, Eq, Structural)]
pub struct FileStat {
    pub uid: u32,
    pub mode: i32,
}

/// The verdict [`test_runtime_dir`] owes for a metadata-read outcome `meta`
/// (the stat of the candidate, or the OS error code of the failed read) and
/// the calling user's id: success exactly when the read succeeded, the mode
/// is exactly `0o700`, and the owner is the calling user; otherwise the
/// failure that was found first, permissions before ownership.
pub open spec fn runtime_dir_verdict(meta: Result<FileStat, Option<i32>>, current_uid: u32) -> Result<(), ErrorKind> {
    match meta {
        Err(code) => Err(ErrorKind::Io(code)),
        Ok(st) => if st.mode != 0o700 {
            Err(ErrorKind::Xdg(XdgError::IncorrectPermissions))
        } else if st.uid != current_uid {
            Err(ErrorKind::Xdg(XdgError::IncorrectOwner))
        } else {
            Ok(())
        },
    }
}

/// Runtime-directory validation succeeds if and only if the metadata read
/// succeeded, the directory is owned by the calling user, and its permission
/// bits are exactly `0o700`; and breaking any one of the three requirements
/// while the other two hold flips the verdict to that requirement's own
/// failure cause.
pub proof fn lemma_runtime_dir_verdict_flips(
    meta: Result<FileStat, Option<i32>>,
    current_uid: u32,
)
    ensures
        runtime_dir_verdict(meta, current_uid) is Ok <==> (meta matches Ok(st) && st.uid
            == current_uid && st.mode == 0o700),
        meta matches Err(code) ==> runtime_dir_verdict(meta, current_uid) == Err::<(), ErrorKind>(
            ErrorKind::Io(code),
        ),
        meta matches Ok(st) && st.uid == current_uid && st.mode != 0o700 ==> runtime_dir_verdict(
            meta,
            current_uid,
        ) == Err::<(), ErrorKind>(ErrorKind::Xdg(XdgError::IncorrectPermissions)),
        meta matches Ok(st) && st.uid != current_uid && st.mode == 0o700 ==> runtime_dir_verdict(
            meta,
            current_uid,
        ) == Err::<(), ErrorKind>(ErrorKind::Xdg(XdgError::IncorrectOwner)),
{
}

/// Check that a runtime directory's permission bits are exactly `0o700`:
/// read, write and execute for the owner, and no access for anyone else.
pub fn check_permissions(permissions: i32) -> (r: Result<(), Error>)
    ensures
        permissions == 0o700 ==> r is Ok,
        permissions != 0o700 ==> (r matches Err(e)
            && e.kind_spec() == ErrorKind::Xdg(XdgError::IncorrectPermissions)),
{
    if permissions == 0o700 {
        Ok(())
    } else {
        Err(Error::new(ErrorKind::Xdg(XdgError::IncorrectPermissions)))
    }
}

/// Check that a directory owned by the user with id `dir_uid` belongs to the
/// calling user, whose id is `current_uid`.
pub fn test_dir_uid_is_current_user(dir_uid: u32, current_uid: u32) -> (r: Result<(), Error>)
    ensures
        dir_uid == current_uid ==> r is Ok,
        dir_uid != current_uid ==> (r matches Err(e)
            && e.kind_spec() == ErrorKind::Xdg(XdgError::IncorrectOwner)),
{
    if dir_uid == current_uid {
        Ok(())
    } else {
        Err(Error::new(ErrorKind::Xdg(XdgError::IncorrectOwner)))
    }
}

/// Check that a candidate runtime directory is private to the calling user.
///
/// `meta` is the outcome of reading the candidate's filesystem metadata: its
/// owner and permission bits, or the OS error code of the failed read when
/// the path is missing or unreadable. Succeeds if and only if the read
/// succeeded, the directory is owned by the calling user, and its permission
/// bits are exactly `0o700`; each failed requirement is reported as its own
/// error cause, and when both the mode and the owner are wrong the mode is
/// the one reported.
pub fn test_runtime_dir(meta: Result<FileStat, Option<i32>>, current_uid: u32) -> (r: Result<
    (),
    Error,
>)
    ensures
        match runtime_dir_verdict(meta, current_uid) {
            Ok(_) => r is Ok,
            Err(k) => r matches Err(e) && e.kind_spec() == k,
        },
        r is Ok <==> (meta matches Ok(st) && st.uid == current_uid && st.mode == 0o700),
{
    match meta {
        Err(code) => Err(Error::new(ErrorKind::Io(code))),
        Ok(st) => match check_permissions(st.mode) {
            Err(e) => Err(e),
            Ok(_) => test_dir_uid_is_current_user(st.uid, current_uid),
        },
    }
}

/// For any candidate value that is non-empty and absolute, single-directory
/// resolution returns that value unchanged, whatever the home directory and
/// the default.
pub proof fn lemma_resolve_single_keeps_absolute(
    v: Seq<char>,
    home: Option<Seq<char>>,
    default: Seq<char>,
)
    requires
        is_absolute_path(v),
    ensures
        resolve_single_spec(Some(v), home, default) == Ok::<Seq<char>, XdgError>(v),
{
}

/// For an absent, empty or relative candidate value, single-directory
/// resolution returns the default joined onto the home directory.
pub proof fn lemma_resolve_single_fallback(
    value: Option<Seq<char>>,
    home: Seq<char>,
    default: Seq<char>,
)
    requires
        value matches Some(v) ==> !is_absolute_path(v),
    ensures
        resolve_single_spec(value, Some(home), default) == Ok::<Seq<char>, XdgError>(
            join_spec(home, default),
        ),
{
}

/// Single-directory resolution fails, with the missing-home cause, exactly
/// when the fallback is required and no home directory is known.
pub proof fn lemma_resolve_single_no_home(value: Option<Seq<char>>, default: Seq<char>)
    requires
        value matches Some(v) ==> !is_absolute_path(v),
    ensures
        resolve_single_spec(value, None, default) == Err::<Seq<char>, XdgError>(
            XdgError::NoHomeDir,
        ),
{
}

/// A resolved single directory is always absolute, provided the home
/// directory is absolute whenever it is known.
pub proof fn lemma_resolve_single_absolute(
    value: Option<Seq<char>>,
    home: Option<Seq<char>>,
    default: Seq<char>,
)
    requires
        home matches Some(h) ==> is_absolute_path(h),
    ensures
        resolve_single_spec(value, home, default) matches Ok(p) ==> is_absolute_path(p),
{
}

/// For a present, non-empty candidate value, search-path resolution is
/// exactly the colon-split of that value: order kept, count kept, duplicate
/// and relative segments kept verbatim.
pub proof fn lemma_resolve_list_splits_value(v: Seq<char>, default: Seq<char>)
    requires
        v.len() > 0,
    ensures
        resolve_list_spec(Some(v), default) == split_sep(v, ':'),
{
}

/// For an absent or empty candidate value, search-path resolution is exactly
/// the colon-split of the fixed default.
pub proof fn lemma_resolve_list_default(value: Option<Seq<char>>, default: Seq<char>)
    requires
        value matches Some(v) ==> v.len() == 0,
    ensures
        resolve_list_spec(value, default) == split_sep(default, ':'),
{
}

/// A resolved search path is never empty, whatever the candidate value.
pub proof fn lemma_resolve_list_never_empty(value: Option<Seq<char>>, default: Seq<char>)
    ensures
        resolve_list_spec(value, default).len() >= 1,
{
    match value {
        Some(v) => {
            if v.len() > 0 {
                paths::lemma_split_sep_len(v, ':');
            } else {
                paths::lemma_split_sep_len(default, ':');
            }
        },
        None => {
            paths::lemma_split_sep_len(default, ':');
        },
    }
}

/// Optional resolution is idempotent: resolving a resolved value again
/// yields the same outcome.
pub proof fn lemma_resolve_optional_idempotent(value: Option<Seq<char>>)
    ensures
        resolve_optional_spec(resolve_optional_spec(value)) == resolve_optional_spec(value),
{
}

/// Holds when `r` is the single-directory resolution of the looked-up value
/// `v` against `home` and `default`, as [`resolve_single_spec`] describes.
pub open spec fn single_resolution_ok(
    r: Result<String, Error>,
    v: Option<String>,
    home: Option<Seq<char>>,
    default: Seq<char>,
) -> bool {
    match resolve_single_spec(opt_string_view(v), home, default) {
        Ok(p) => r matches Ok(s) && s@ == p,
        Err(x) => r matches Err(e) && e.kind_spec() == ErrorKind::Xdg(x),
    }
}

/// Look up `env_var` through the caller's environment capability and resolve
/// a single directory from whatever came back, falling back to `default`
/// joined onto `home`.
fn get_env_path_or_default<'a, F: Fn(&'a str) -> Option<String>>(
    get_env_var: &F,
    env_var: &'a str,
    home: Option<&str>,
    default: &str,
) -> (r: Result<String, Error>)
    requires
        call_requires(*get_env_var, (env_var,)),
    ensures
        exists|v: Option<String>|
            #[trigger] call_ensures(*get_env_var, (env_var,), v) && single_resolution_ok(
                r,
                v,
                opt_str_view(home),
                default@,
            ),
{
    let looked: Option<String> = (*get_env_var)(env_var);
    let value: Option<&str> = match &looked {
        Some(s) => Some(s.as_str()),
        None => None,
    };
    let r = resolve_single(value, home, default);
    proof {
        assert(opt_str_view(value) == opt_string_view(looked));
        assert(call_ensures(*get_env_var, (env_var,), looked) && single_resolution_ok(
            r,
            looked,
            opt_str_view(home),
            default@,
        ));
    }
    r
}

/// Holds when `r` is the optional resolution of the looked-up value `v`, as
/// [`resolve_optional_spec`] describes.
pub open spec fn optional_resolution_ok(r: Option<String>, v: Option<String>) -> bool {
    opt_string_view(r) == resolve_optional_spec(opt_string_view(v))
}

/// Holds when `r` is the search-path resolution of the looked-up value `v`
/// against `default`, as [`resolve_list_spec`] describes.
pub open spec fn list_resolution_ok(r: Seq<String>, v: Option<String>, default: Seq<char>) -> bool {
    seq_views(r) == resolve_list_spec(opt_string_view(v), default)
}

/// Look up `env_var` through the caller's environment capability and return
/// whatever came back as a path, when it is absolute.
fn get_env_path<'a, F: Fn(&'a str) -> Option<String>>(get_env_var: &F, env_var: &'a str) -> (r:
    Option<String>)
    requires
        call_requires(*get_env_var, (env_var,)),
    ensures
        exists|v: Option<String>|
            #[trigger] call_ensures(*get_env_var, (env_var,), v) && optional_resolution_ok(r, v),
{
    let looked: Option<String> = (*get_env_var)(env_var);
    let value: Option<&str> = match &looked {
        Some(s) => Some(s.as_str()),
        None => None,
    };
    let r = resolve_optional(value);
    proof {
        assert(call_ensures(*get_env_var, (env_var,), looked) && optional_resolution_ok(r, looked));
    }
    r
}

/// Look up `env_var` through the caller's environment capability and resolve
/// a search path from whatever came back, falling back to `default`.
fn get_env_paths_or_default<'a, F: Fn(&'a str) -> Option<String>>(
    get_env_var: &F,
    env_var: &'a str,
    default: &str,
) -> (r: Vec<String>)
    requires
        call_requires(*get_env_var, (env_var,)),
    ensures
        exists|v: Option<String>|
            #[trigger] call_ensures(*get_env_var, (env_var,), v) && list_resolution_ok(
                r@,
                v,
                default@,
            ),
        r@.len() >= 1,
{
    let looked: Option<String> = (*get_env_var)(env_var);
    let value: Option<&str> = match &looked {
        Some(s) => Some(s.as_str()),
        None => None,
    };
    let r = resolve_list(value, default);
    proof {
        assert(call_ensures(*get_env_var, (env_var,), looked) && list_resolution_ok(
            r@,
            looked,
            default@,
        ));
    }
    r
}

/// Resolve the data home directory from a custom environment: the value of
/// `XDG_DATA_HOME` when absolute, and `.local/share` under `home` otherwise.
pub fn get_data_home_from_env<'a, F: Fn(&'a str) -> Option<String>>(
    get_env_var: &F,
    home: Option<&str>,
) -> (r: Result<String, Error>)
    requires
        call_requires(*get_env_var, ("XDG_DATA_HOME",)),
    ensures
        exists|v: Option<String>|
            #[trigger] call_ensures(*get_env_var, ("XDG_DATA_HOME",), v) && single_resolution_ok(
                r,
                v,
                opt_str_view(home),
                ".local/share"@,
            ),
{
    get_env_path_or_default(get_env_var, "XDG_DATA_HOME", home, ".local/share")
}

/// Resolve the data search path from a custom environment: the colon-split
/// value of `XDG_DATA_DIRS` when set and non-empty, and
/// `[/usr/local/share, /usr/share]` otherwise.
pub fn get_data_dirs_from_env<'a, F: Fn(&'a str) -> Option<String>>(get_env_var: &F) -> (r: Vec<
    String,
>)
    requires
        call_requires(*get_env_var, ("XDG_DATA_DIRS",)),
    ensures
        exists|v: Option<String>|
            #[trigger] call_ensures(*get_env_var, ("XDG_DATA_DIRS",), v) && list_resolution_ok(
                r@,
                v,
                "/usr/local/share:/usr/share"@,
            ),
        r@.len() >= 1,
{
    get_env_paths_or_default(get_env_var, "XDG_DATA_DIRS", "/usr/local/share:/usr/share")
}

/// Resolve the config home directory from a custom environment: the value of
/// `XDG_CONFIG_HOME` when absolute, and `.config` under `home` otherwise.
pub fn get_config_home_from_env<'a, F: Fn(&'a str) -> Option<String>>(
    get_env_var: &F,
    home: Option<&str>,
) -> (r: Result<String, Error>)
    requires
        call_requires(*get_env_var, ("XDG_CONFIG_HOME",)),
    ensures
        exists|v: Option<String>|
            #[trigger] call_ensures(*get_env_var, ("XDG_CONFIG_HOME",), v) && single_resolution_ok(
                r,
                v,
                opt_str_view(home),
                ".config"@,
            ),
{
    get_env_path_or_default(get_env_var, "XDG_CONFIG_HOME", home, ".config")
}

/// Resolve the config search path from a custom environment: the colon-split
/// value of `XDG_CONFIG_DIRS` when set and non-empty, and `[/etc/xdg]`
/// otherwise.
pub fn get_config_dirs_from_env<'a, F: Fn(&'a str) -> Option<String>>(get_env_var: &F) -> (r: Vec<
    String,
>)
    requires
        call_requires(*get_env_var, ("XDG_CONFIG_DIRS",)),
    ensures
        exists|v: Option<String>|
            #[trigger] call_ensures(*get_env_var, ("XDG_CONFIG_DIRS",), v) && list_resolution_ok(
                r@,
                v,
                "/etc/xdg"@,
            ),
        r@.len() >= 1,
{
    get_env_paths_or_default(get_env_var, "XDG_CONFIG_DIRS", "/etc/xdg")
}

/// Resolve the cache home directory from a custom environment: the value of
/// `XDG_CACHE_HOME` when absolute, and `.cache` under `home` otherwise.
pub fn get_cache_home_from_env<'a, F: Fn(&'a str) -> Option<String>>(
    get_env_var: &F,
    home: Option<&str>,
) -> (r: Result<String, Error>)
    requires
        call_requires(*get_env_var, ("XDG_CACHE_HOME",)),
    ensures
        exists|v: Option<String>|
            #[trigger] call_ensures(*get_env_var, ("XDG_CACHE_HOME",), v) && single_resolution_ok(
                r,
                v,
                opt_str_view(home),
                ".cache"@,
            ),
{
    get_env_path_or_default(get_env_var, "XDG_CACHE_HOME", home, ".cache")
}

/// Resolve the runtime directory from a custom environment: the value of
/// `XDG_RUNTIME_DIR` when absolute, and absent otherwise. Absence is an
/// ordinary outcome; the application chooses its own fallback.
pub fn get_runtime_dir_from_env<'a, F: Fn(&'a str) -> Option<String>>(get_env_var: &F) -> (r:
    Option<String>)
    requires
        call_requires(*get_env_var, ("XDG_RUNTIME_DIR",)),
    ensures
        exists|v: Option<String>|
            #[trigger] call_ensures(*get_env_var, ("XDG_RUNTIME_DIR",), v)
                && optional_resolution_ok(r, v),
{
    get_env_path(get_env_var, "XDG_RUNTIME_DIR")
}

} // verus!
