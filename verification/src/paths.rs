//! Path construction: Windows-to-WSL path translation, the log and
//! archive directories, and the timestamped names under which logs and
//! artifacts are persisted.

use vstd::prelude::*;
use crate::strutil::{ascii_lower_char, push_char, spec_ascii_lower_char};

verus! {

/// Every backslash replaced by a forward slash.
pub open spec fn spec_slashes(s: Seq<char>) -> Seq<char> {
    s.map_values(|c: char| if c == '\\' { '/' } else { c })
}

/// The WSL mount path of a Windows path: a leading drive letter becomes
/// `/mnt/<letter>` in lower case, and backslashes become slashes.
pub open spec fn spec_wsl_path(s: Seq<char>) -> Seq<char> {
    if s.len() >= 2 && s[1] == ':' {
        "/mnt/"@ + seq![spec_ascii_lower_char(s[0])] + spec_slashes(s.skip(2))
    } else {
        spec_slashes(s)
    }
}

fn append_slashes(out: &mut String, s: &str, from: usize)
    requires
        from <= s@.len(),
    ensures
        final(out)@ == old(out)@ + spec_slashes(s@.skip(from as int)),
{
    let len = s.unicode_len();
    let mut i: usize = from;
    while i < len
        invariant
            from <= i <= len,
            len == s@.len(),
            out@ == old(out)@ + spec_slashes(s@.subrange(from as int, i as int)),
        decreases len - i,
    {
        let c = s.get_char(i);
        let mapped = if c == '\\' {
            '/'
        } else {
            c
        };
        let ghost before = out@;
        push_char(out, mapped);
        i = i + 1;
        proof {
            assert(spec_slashes(s@.subrange(from as int, i as int)) =~= spec_slashes(
                s@.subrange(from as int, i - 1),
            ).push(mapped));
            assert(out@ =~= old(out)@ + spec_slashes(s@.subrange(from as int, i as int)));
        }
    }
    proof {
        assert(s@.subrange(from as int, len as int) =~= s@.skip(from as int));
    }
}

/// Replaces every backslash in a path by a forward slash.
pub fn replace_backslashes(s: &str) -> (r: String)
    ensures
        r@ == spec_slashes(s@),
{
    let mut out = String::new();
    append_slashes(&mut out, s, 0);
    proof {
        assert(s@.skip(0) =~= s@);
    }
    out
}

/// Translates a Windows path (any drive letter) to its WSL mount path.
pub fn windows_to_wsl_path(win_path: &str) -> (r: String)
    ensures
        r@ == spec_wsl_path(win_path@),
{
    let len = win_path.unicode_len();
    if len >= 2 && win_path.get_char(1) == ':' {
        let mut out = String::from_str("/mnt/");
        push_char(&mut out, ascii_lower_char(win_path.get_char(0)));
        proof {
            assert(out@ =~= "/mnt/"@ + seq![spec_ascii_lower_char(win_path@[0])]);
        }
        append_slashes(&mut out, win_path, 2);
        out
    } else {
        let mut out = String::new();
        append_slashes(&mut out, win_path, 0);
        proof {
            assert(win_path@.skip(0) =~= win_path@);
        }
        out
    }
}

/// `dir` and `name` joined with a single separator.
pub open spec fn spec_join(dir: Seq<char>, name: Seq<char>) -> Seq<char> {
    dir + "/"@ + name
}

/// Joins a directory and an entry name with a separator.
pub fn join_path(dir: &str, name: &str) -> (r: String)
    ensures
        r@ == spec_join(dir@, name@),
{
    let mut s = String::from_str(dir);
    s.append("/");
    s.append(name);
    s
}

/// The directory under the working directory where build transcripts are
/// persisted.
pub fn logs_dir(working_dir: &str) -> (r: String)
    ensures
        r@ == working_dir@ + "/hyperzenith_logs"@,
{
    let mut s = String::from_str(working_dir);
    s.append("/hyperzenith_logs");
    s
}

/// The archive directory for built artifacts: the custom override when
/// one is set and non-empty, else the default under the working
/// directory.
pub open spec fn spec_archive_dir(working_dir: Seq<char>, custom: Option<Seq<char>>) -> Seq<char> {
    match custom {
        Some(p) => if p.len() > 0 {
            p
        } else {
            working_dir + "/hyperzenith_builds"@
        },
        None => working_dir + "/hyperzenith_builds"@,
    }
}

/// Resolves the archive directory from the working directory and the
/// optional custom override.
pub fn archive_dir(working_dir: &str, custom_path: &Option<String>) -> (r: String)
    ensures
        r@ == spec_archive_dir(
            working_dir@,
            match custom_path {
                Some(p) => Some(p@),
                None => None,
            },
        ),
{
    if let Some(p) = custom_path {
        if !p.as_str().is_empty() {
            return p.clone();
        }
    }
    let mut s = String::from_str(working_dir);
    s.append("/hyperzenith_builds");
    s
}

/// The two build pipelines whose logs are kept apart by name.
pub enum BuildPlatform {
    Android,
    Ios,
}

/// The log name prefix: the platform and whether the build succeeded,
/// so logs are discoverable without opening them.
pub open spec fn spec_log_prefix(platform: BuildPlatform, success: bool) -> Seq<char> {
    match platform {
        BuildPlatform::Android => if success {
            "android_build_success"@
        } else {
            "android_build_fail"@
        },
        BuildPlatform::Ios => if success {
            "ios_build_success"@
        } else {
            "ios_build_fail"@
        },
    }
}

/// The prefix that marks a log as a success or failure transcript of the
/// given platform.
pub fn log_prefix(platform: &BuildPlatform, success: bool) -> (r: &'static str)
    ensures
        r@ == spec_log_prefix(*platform, success),
{
    match platform {
        BuildPlatform::Android => if success {
            "android_build_success"
        } else {
            "android_build_fail"
        },
        BuildPlatform::Ios => if success {
            "ios_build_success"
        } else {
            "ios_build_fail"
        },
    }
}

/// The file name under which a transcript is persisted:
/// `<prefix>_<timestamp>.log`.
pub open spec fn spec_log_file_name(
    platform: BuildPlatform,
    success: bool,
    timestamp: Seq<char>,
) -> Seq<char> {
    spec_log_prefix(platform, success) + "_"@ + timestamp + ".log"@
}

/// Builds the log file name for a given outcome and timestamp.
pub fn log_file_name(platform: &BuildPlatform, success: bool, timestamp: &str) -> (r: String)
    ensures
        r@ == spec_log_file_name(*platform, success, timestamp@),
{
    let mut s = String::from_str(log_prefix(platform, success));
    s.append("_");
    s.append(timestamp);
    s.append(".log");
    s
}

/// Relies on `chrono::Local::now` and its `format`: the wall-clock time
/// rendered as `%Y-%m-%d_%H-%M-%S`. The result depends on the clock, so
/// nothing is promised of it.
#[verifier::external_body]
pub(crate) fn timestamp_now() -> (r: String) {
    chrono::Local::now().format("%Y-%m-%d_%H-%M-%S").to_string()
}

/// Builds the log file name for a given outcome at the current time.
pub fn fresh_log_file_name(platform: &BuildPlatform, success: bool) -> (r: String)
    ensures
        exists|timestamp: Seq<char>|
            r@ == spec_log_file_name(*platform, success, timestamp),
{
    let ts = timestamp_now();
    let r = log_file_name(platform, success, ts.as_str());
    proof {
        assert(r@ == spec_log_file_name(*platform, success, ts@));
    }
    r
}

/// The archive name of a built artifact: `app-debug_<timestamp>.<ext>`.
pub open spec fn spec_archive_name(timestamp: Seq<char>, ext: Seq<char>) -> Seq<char> {
    "app-debug_"@ + timestamp + "."@ + ext
}

/// Builds the timestamped name under which an artifact is archived.
pub fn archive_dest_name(timestamp: &str, ext: &str) -> (r: String)
    ensures
        r@ == spec_archive_name(timestamp@, ext@),
{
    let mut s = String::from_str("app-debug_");
    s.append(timestamp);
    s.append(".");
    s.append(ext);
    s
}

/// Builds the archive name of an artifact at the current time.
pub fn fresh_archive_name(ext: &str) -> (r: String)
    ensures
        exists|timestamp: Seq<char>| r@ == spec_archive_name(timestamp, ext@),
{
    let ts = timestamp_now();
    let r = archive_dest_name(ts.as_str(), ext);
    proof {
        assert(r@ == spec_archive_name(ts@, ext@));
    }
    r
}

/// The output location and extension of the built artifact for the
/// chosen package format: the app bundle or the plain package.
pub fn artifact_output(build_type: &str) -> (r: (&'static str, &'static str))
    ensures
        build_type@ == "aab"@ ==> r.0@ == "android/app/build/outputs/bundle/debug/app-debug.aab"@
            && r.1@ == "aab"@,
        build_type@ != "aab"@ ==> r.0@ == "android/app/build/outputs/apk/debug/app-debug.apk"@
            && r.1@ == "apk"@,
{
    if crate::strutil::str_eq(build_type, "aab") {
        ("android/app/build/outputs/bundle/debug/app-debug.aab", "aab")
    } else {
        ("android/app/build/outputs/apk/debug/app-debug.apk", "apk")
    }
}

/// Relies on `dirs::home_dir`: the user's home directory as the platform
/// reports it, if any. The result depends on the environment, so nothing
/// is promised of it.
#[verifier::external_body]
pub(crate) fn home_dir_string() -> (r: Option<String>) {
    match dirs::home_dir() {
        Some(p) => Some(p.to_string_lossy().into_owned()),
        None => None,
    }
}

/// The directory under a home directory where remote-build transcripts
/// are persisted.
pub open spec fn spec_ios_log_dir(home: Seq<char>) -> Seq<char> {
    home + "/.hyperzenith/ios_logs"@
}

/// The remote-build log directory under the given home directory.
pub fn ios_log_dir_under(home: &str) -> (r: String)
    ensures
        r@ == spec_ios_log_dir(home@),
{
    let mut s = String::from_str(home);
    s.append("/.hyperzenith/ios_logs");
    s
}

/// The remote-build log directory under the user's home directory, when
/// the platform reports one.
pub fn ios_log_dir() -> (r: Option<String>)
    ensures
        r matches Some(d) ==> exists|home: Seq<char>| d@ == spec_ios_log_dir(home),
{
    match home_dir_string() {
        Some(home) => {
            let d = ios_log_dir_under(home.as_str());
            proof {
                assert(d@ == spec_ios_log_dir(home@));
            }
            Some(d)
        },
        None => None,
    }
}

} // verus!
