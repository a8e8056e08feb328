//! Outcome classification and the user-facing reports of a build
//! session: success and failure messages, archive freshness, the
//! workspace-clean report, and the archive-clearing summary.

use vstd::prelude::*;
use crate::strutil::{spec_decimal, str_eq, to_lower, unicode_lower, usize_to_string};

verus! {

/// The terminal classification of a build: the process's exit status
/// decides, zero meaning success.
pub enum BuildOutcome {
    Success,
    Failure { exit_code: i32 },
}

/// Classifies a reaped exit status: zero is success, anything else a
/// failure carrying the code.
pub fn classify_exit(exit_code: i32) -> (o: BuildOutcome)
    ensures
        exit_code == 0 ==> o is Success,
        exit_code != 0 ==> (o matches BuildOutcome::Failure { exit_code: c } && c == exit_code),
{
    if exit_code == 0 {
        BuildOutcome::Success
    } else {
        BuildOutcome::Failure { exit_code }
    }
}

/// How recently an artifact must have been modified to count as freshly
/// produced rather than a stale cache hit, in seconds.
pub const FRESHNESS_WINDOW_SECS: u64 = 120;

/// Whether an artifact of the given age was produced by this build: a
/// modification within the recency window means fresh, anything older is
/// a cache hit. Advisory only; it never changes the classification.
pub fn is_fresh_artifact(age_secs: u64) -> (r: bool)
    ensures
        r == (age_secs < FRESHNESS_WINDOW_SECS),
{
    age_secs < FRESHNESS_WINDOW_SECS
}

/// What became of the build's artifact after a success: freshly
/// produced, served from cache, or not found at the expected path.
pub enum ArtifactState {
    Fresh,
    Cached,
    Missing,
}

/// The terminal report of a local build: success messages distinguish a
/// fresh artifact from a cache hit, and a failure always names the
/// persisted log so the transcript can be inspected.
pub fn finish_local_build(exit_code: i32, artifact: &ArtifactState, log_path: &str) -> (r: Result<
    String,
    String,
>)
    ensures
        exit_code == 0 && artifact is Fresh ==> (r matches Ok(m) && m@
            == "Build completed! (Fresh APK)"@),
        exit_code == 0 && artifact is Cached ==> (r matches Ok(m) && m@
            == "Build completed! (Cached - no code changes)"@),
        exit_code == 0 && artifact is Missing ==> (r matches Ok(m) && m@ == "Build completed!"@),
        exit_code != 0 ==> (r matches Err(m) && m@ == "Build failed. Log: "@ + log_path@),
{
    if exit_code == 0 {
        match artifact {
            ArtifactState::Fresh => Ok(String::from_str("Build completed! (Fresh APK)")),
            ArtifactState::Cached => Ok(
                String::from_str("Build completed! (Cached - no code changes)"),
            ),
            ArtifactState::Missing => Ok(String::from_str("Build completed!")),
        }
    } else {
        let mut m = String::from_str("Build failed. Log: ");
        m.append(log_path);
        Err(m)
    }
}

/// The Unicode upper-case folding of a character sequence, as
/// `str::to_uppercase` computes it.
pub uninterp spec fn unicode_upper(s: Seq<char>) -> Seq<char>;

/// Relies on `str::to_uppercase`: the result is a function of the
/// characters alone, and an empty input stays empty.
#[verifier::external_body]
pub(crate) fn to_upper(s: &str) -> (r: String)
    ensures
        r@ == unicode_upper(s@),
        s@.len() == 0 ==> r@.len() == 0,
{
    s.to_uppercase()
}

/// The observer announcement after an artifact was copied into the
/// archive: a fresh artifact or a cache hit, named by its upper-cased
/// extension.
pub fn archived_message(ext: &str, fresh: bool) -> (r: String)
    ensures
        fresh ==> r@ == "New "@ + unicode_upper(ext@) + " archived!"@,
        !fresh ==> r@ == "Cached "@ + unicode_upper(ext@) + " (code unchanged)"@,
{
    let upper = to_upper(ext);
    if fresh {
        let mut m = String::from_str("New ");
        m.append(upper.as_str());
        m.append(" archived!");
        m
    } else {
        let mut m = String::from_str("Cached ");
        m.append(upper.as_str());
        m.append(" (code unchanged)");
        m
    }
}

/// One target directory of the workspace clean: its short name and
/// whether it was actually removed.
pub struct CleanResult {
    pub name: String,
    pub removed: bool,
}

/// The short names of the directories a workspace clean removes, in
/// order, relative to `<working_dir>/android`: the app build tree, the
/// top-level build tree, and the build system's cache.
pub fn clean_targets(working_dir: &str) -> (r: Vec<String>)
    ensures
        r@.len() == 3,
        r@[0]@ == working_dir@ + "/android/app/build"@,
        r@[1]@ == working_dir@ + "/android/build"@,
        r@[2]@ == working_dir@ + "/android/.gradle"@,
{
    let mut targets: Vec<String> = Vec::new();
    let mut a = String::from_str(working_dir);
    a.append("/android/app/build");
    targets.push(a);
    let mut b = String::from_str(working_dir);
    b.append("/android/build");
    targets.push(b);
    let mut c = String::from_str(working_dir);
    c.append("/android/.gradle");
    targets.push(c);
    targets
}

/// The body of the clean report: each removed directory's name followed
/// by a separator, each failure parenthesised.
pub open spec fn spec_clean_parts(items: Seq<CleanResult>) -> Seq<char>
    decreases items.len(),
{
    if items.len() == 0 {
        Seq::empty()
    } else {
        spec_clean_parts(items.drop_last()) + (if items.last().removed {
            items.last().name@ + ", "@
        } else {
            "(Fail: "@ + items.last().name@ + ") "@
        })
    }
}

/// How many of the targets were actually removed.
pub open spec fn spec_removed_count(items: Seq<CleanResult>) -> nat
    decreases items.len(),
{
    if items.len() == 0 {
        0
    } else {
        spec_removed_count(items.drop_last()) + (if items.last().removed {
            1nat
        } else {
            0nat
        })
    }
}

/// The text with every trailing `", "` separator removed.
pub open spec fn spec_trim_sep(s: Seq<char>) -> Seq<char>
    decreases s.len(),
{
    if s.len() >= 2 && s[s.len() - 2] == ',' && s[s.len() - 1] == ' ' {
        spec_trim_sep(s.take(s.len() - 2))
    } else {
        s
    }
}

fn trim_trailing_sep(s: &str) -> (r: String)
    ensures
        r@ == spec_trim_sep(s@),
    decreases s@.len(),
{
    let len = s.unicode_len();
    if len >= 2 && s.get_char(len - 2) == ',' && s.get_char(len - 1) == ' ' {
        let sub = s.substring_char(0, len - 2);
        proof {
            assert(sub@ =~= s@.take(s@.len() - 2));
        }
        trim_trailing_sep(sub)
    } else {
        String::from_str(s)
    }
}

/// The report of a workspace clean: which targets went, and how many,
/// or that there was nothing to remove.
pub fn clean_report(items: &Vec<CleanResult>) -> (r: String)
    ensures
        spec_removed_count(items@) == 0 ==> r@ == "Nothing to nuke! (Clean)"@,
        spec_removed_count(items@) > 0 ==> r@ == spec_trim_sep(
            "Nuked: "@ + spec_clean_parts(items@),
        ) + " ("@ + spec_decimal(spec_removed_count(items@)) + " items)"@,
{
    let mut body = String::from_str("Nuked: ");
    let mut removed: usize = 0;
    let mut i: usize = 0;
    while i < items.len()
        invariant
            i <= items@.len(),
            body@ == "Nuked: "@ + spec_clean_parts(items@.take(i as int)),
            removed == spec_removed_count(items@.take(i as int)),
            removed <= i,
        decreases items@.len() - i,
    {
        let ghost prefix = items@.take(i as int);
        let item = &items[i];
        if item.removed {
            body.append(item.name.as_str());
            body.append(", ");
            removed = removed + 1;
        } else {
            body.append("(Fail: ");
            body.append(item.name.as_str());
            body.append(") ");
        }
        i = i + 1;
        proof {
            assert(items@.take(i as int).drop_last() =~= prefix);
            assert(items@.take(i as int).last() == items@[i - 1]);
        }
    }
    proof {
        assert(items@.take(items@.len() as int) =~= items@);
    }
    if removed == 0 {
        String::from_str("Nothing to nuke! (Clean)")
    } else {
        let mut r = trim_trailing_sep(body.as_str());
        r.append(" (");
        r.append(usize_to_string(removed).as_str());
        r.append(" items)");
        r
    }
}

/// Whether a file extension names a build artifact: the package,
/// bundle, installer and application formats, compared without regard to
/// case.
pub fn is_artifact_extension(ext: &str) -> (r: bool)
    ensures
        r == (unicode_lower(ext@) == "apk"@ || unicode_lower(ext@) == "aab"@ || unicode_lower(ext@)
            == "ipa"@ || unicode_lower(ext@) == "app"@),
{
    let low = to_lower(ext);
    str_eq(low.as_str(), "apk") || str_eq(low.as_str(), "aab") || str_eq(low.as_str(), "ipa")
        || str_eq(low.as_str(), "app")
}

/// The summary of an archive clear: how many artifacts went, or that
/// there were none.
pub fn clear_summary(deleted: usize) -> (r: String)
    ensures
        deleted == 0 ==> r@ == "No APKs to clear."@,
        deleted > 0 ==> r@ == "Cleared "@ + spec_decimal(deleted as nat) + " APK(s)"@,
{
    if deleted == 0 {
        String::from_str("No APKs to clear.")
    } else {
        let mut r = String::from_str("Cleared ");
        r.append(usize_to_string(deleted).as_str());
        r.append(" APK(s)");
        r
    }
}

} // verus!
