//! Build session controller.
//!
//! The remote session is a phase machine: the cheap pre-flight check
//! must pass before the expensive hydration-and-build command is handed
//! out, the exit status is classified once the relays have drained the
//! output, and the terminal report always names the persisted log. The
//! local build's decisions are fixed up front in a single plan: the
//! translated paths, the sized build command, and the artifact and
//! archive locations.

use vstd::prelude::*;
use crate::commands::{ios_build_command, preflight_command, preflight_passed,
    spec_ios_build_command, spec_ios_hydration_command, android_sdk_wsl_path,
    spec_android_sdk_source, gradle_task, turbo_build_command, standard_build_command,
    spec_turbo_build_command, spec_standard_build_command};
use crate::connection::SessionError;
use crate::hardware::HardwareProfile;
use crate::outcome::{classify_exit, BuildOutcome};
use crate::paths::{archive_dir, artifact_output, log_file_name, logs_dir, spec_archive_dir,
    spec_log_file_name, spec_wsl_path, windows_to_wsl_path, BuildPlatform};
use crate::strutil::{spec_contains, str_eq};

verus! {

/// Where a remote build session stands.
pub enum RemotePhase {
    /// The session is open; the toolchain check has not run yet.
    Preflight,
    /// The toolchain was found; the build command is in flight.
    Building,
    /// The build exited; the transcript is being persisted.
    Collecting,
    /// The session reported its result.
    Terminal,
}

/// One remote build from pre-flight to terminal report. The phase
/// ordering is part of the contract: the build command can only be
/// obtained by submitting a passing pre-flight output, and a result only
/// by submitting an exit status.
pub struct RemoteBuildSession {
    phase: RemotePhase,
    remote_path: String,
    scheme: String,
    device_build: bool,
    outcome: Option<BuildOutcome>,
}

impl RemoteBuildSession {
    /// The session's phase.
    pub closed spec fn phase(&self) -> RemotePhase {
        self.phase
    }

    /// The synced workspace on the build host.
    pub closed spec fn remote_path(&self) -> Seq<char> {
        self.remote_path@
    }

    /// The workspace scheme being built.
    pub closed spec fn scheme(&self) -> Seq<char> {
        self.scheme@
    }

    /// Whether the build targets a device rather than the simulator.
    pub closed spec fn device_build(&self) -> bool {
        self.device_build
    }

    /// The classification of the build, once an exit status came in.
    pub closed spec fn outcome(&self) -> Option<BuildOutcome> {
        self.outcome
    }

    /// Opens a session for the given workspace, scheme and build type;
    /// nothing runs before the pre-flight check.
    pub fn start(remote_path: String, scheme: String, build_type: &str) -> (s: Self)
        ensures
            s.phase() is Preflight,
            s.remote_path() == remote_path@,
            s.scheme() == scheme@,
            s.device_build() == (build_type@ == "device"@),
            s.outcome() is None,
    {
        let device_build = str_eq(build_type, "device");
        RemoteBuildSession {
            phase: RemotePhase::Preflight,
            remote_path,
            scheme,
            device_build,
            outcome: None,
        }
    }

    /// The cheap toolchain check to run first on the session.
    pub fn preflight_command(&self) -> (r: &'static str)
        requires
            self.phase() is Preflight,
        ensures
            r@ == "which xcodebuild || echo 'XCODE_NOT_FOUND'"@,
    {
        preflight_command()
    }

    /// Judges the pre-flight output: the miss marker ends the session
    /// with the environment error before any hydration, and a pass hands
    /// out the hydration-and-build command.
    pub fn submit_preflight(&mut self, output: &str) -> (r: Result<String, SessionError>)
        requires
            old(self).phase() is Preflight,
        ensures
            final(self).remote_path() == old(self).remote_path(),
            final(self).scheme() == old(self).scheme(),
            final(self).device_build() == old(self).device_build(),
            spec_contains(output@, "XCODE_NOT_FOUND"@) ==> (r matches Err(e) && e
                is EnvironmentInvalid && final(self).phase() is Terminal),
            !spec_contains(output@, "XCODE_NOT_FOUND"@) ==> (r matches Ok(cmd) && cmd@
                == spec_ios_build_command(
                old(self).remote_path(),
                spec_ios_hydration_command(),
                old(self).scheme(),
                if old(self).device_build() {
                    "generic/platform=iOS"@
                } else {
                    "platform=iOS Simulator,name=iPhone 15"@
                },
            ) && final(self).phase() is Building),
    {
        if !preflight_passed(output) {
            self.phase = RemotePhase::Terminal;
            return Err(SessionError::EnvironmentInvalid);
        }
        let destination: &'static str = if self.device_build {
            "generic/platform=iOS"
        } else {
            "platform=iOS Simulator,name=iPhone 15"
        };
        let cmd = ios_build_command(self.remote_path.as_str(), self.scheme.as_str(), destination);
        self.phase = RemotePhase::Building;
        Ok(cmd)
    }

    /// Takes the reaped exit status, once the relays have finished, and
    /// classifies it: zero is success.
    pub fn submit_exit(&mut self, exit_code: i32) -> (success: bool)
        requires
            old(self).phase() is Building,
        ensures
            final(self).phase() is Collecting,
            success == (exit_code == 0),
            exit_code == 0 ==> (final(self).outcome() matches Some(o) && o is Success),
            exit_code != 0 ==> (final(self).outcome() matches Some(
                BuildOutcome::Failure { exit_code: c },
            ) && c == exit_code),
    {
        let outcome = classify_exit(exit_code);
        let success = exit_code == 0;
        self.outcome = Some(outcome);
        self.phase = RemotePhase::Collecting;
        success
    }

    /// The name under which the transcript is persisted: the success or
    /// failure prefix, so the log is discoverable without opening it.
    pub fn log_file_name(&self, timestamp: &str) -> (r: String)
        requires
            self.phase() is Collecting,
            self.outcome() is Some,
        ensures
            (self.outcome() matches Some(o) && o is Success) ==> r@ == spec_log_file_name(
                BuildPlatform::Ios,
                true,
                timestamp@,
            ),
            (self.outcome() matches Some(o) && !(o is Success)) ==> r@ == spec_log_file_name(
                BuildPlatform::Ios,
                false,
                timestamp@,
            ),
    {
        let success = match &self.outcome {
            Some(BuildOutcome::Success) => true,
            _ => false,
        };
        log_file_name(&BuildPlatform::Ios, success, timestamp)
    }

    /// Closes the session with its terminal report: the fixed success
    /// message, or the failure carrying the exit code.
    pub fn finish(&mut self) -> (r: Result<String, SessionError>)
        requires
            old(self).phase() is Collecting,
            old(self).outcome() is Some,
        ensures
            final(self).phase() is Terminal,
            (old(self).outcome() matches Some(o) && o is Success) ==> (r matches Ok(m) && m@
                == "iOS Build Completed Successfully via Satellite"@),
            (old(self).outcome() is Some && old(self).outcome()->0 is Failure) ==> (r matches Err(
                e,
            ) && e is CommandFailed && e->CommandFailed_exit_code
                == old(self).outcome()->0->Failure_exit_code),
    {
        self.phase = RemotePhase::Terminal;
        match &self.outcome {
            Some(BuildOutcome::Success) => Ok(
                String::from_str("iOS Build Completed Successfully via Satellite"),
            ),
            Some(BuildOutcome::Failure { exit_code }) => Err(
                SessionError::CommandFailed { exit_code: *exit_code },
            ),
            None => Err(SessionError::EnvironmentInvalid),
        }
    }
}

/// Every decision of a local build fixed before the process is spawned:
/// the translated working directory, the sized build command, and where
/// the logs and the artifact go.
pub struct LocalBuildPlan {
    pub wsl_path: String,
    pub command: String,
    pub log_dir: String,
    pub artifact_subpath: &'static str,
    pub artifact_ext: &'static str,
    pub archive_dir: String,
}

/// Resolves the local build plan: the working directory translated to
/// its WSL mount, the build command sized from the hardware profile (or
/// the plain command outside turbo mode), and the log, artifact and
/// archive locations for the chosen package format.
pub fn local_build_plan(
    working_dir: &str,
    build_type: &str,
    turbo_mode: bool,
    custom_path: &Option<String>,
    local_app_data: &Option<String>,
    profile: &HardwareProfile,
) -> (p: LocalBuildPlan)
    ensures
        p.wsl_path@ == spec_wsl_path(working_dir@),
        turbo_mode ==> p.command@ == spec_turbo_build_command(
            spec_wsl_path(
                spec_android_sdk_source(
                    match local_app_data {
                        Some(l) => Some(l@),
                        None => None,
                    },
                ),
            ),
            profile.jvm_heap_gb as nat,
            spec_wsl_path(working_dir@),
            if build_type@ == "aab"@ {
                "bundleDebug"@
            } else {
                "assembleDebug"@
            },
            profile.max_workers as nat,
        ),
        !turbo_mode ==> p.command@ == spec_standard_build_command(spec_wsl_path(working_dir@)),
        p.log_dir@ == working_dir@ + "/hyperzenith_logs"@,
        build_type@ == "aab"@ ==> p.artifact_subpath@
            == "android/app/build/outputs/bundle/debug/app-debug.aab"@ && p.artifact_ext@
            == "aab"@,
        build_type@ != "aab"@ ==> p.artifact_subpath@
            == "android/app/build/outputs/apk/debug/app-debug.apk"@ && p.artifact_ext@ == "apk"@,
        p.archive_dir@ == spec_archive_dir(
            working_dir@,
            match custom_path {
                Some(c) => Some(c@),
                None => None,
            },
        ),
{
    let wsl_path = windows_to_wsl_path(working_dir);
    let task = gradle_task(build_type);
    let command = if turbo_mode {
        let sdk = android_sdk_wsl_path(local_app_data);
        turbo_build_command(
            sdk.as_str(),
            profile.jvm_heap_gb,
            wsl_path.as_str(),
            task,
            profile.max_workers,
        )
    } else {
        standard_build_command(wsl_path.as_str())
    };
    let log_dir = logs_dir(working_dir);
    let (artifact_subpath, artifact_ext) = artifact_output(build_type);
    let archive = archive_dir(working_dir, custom_path);
    LocalBuildPlan {
        wsl_path,
        command,
        log_dir,
        artifact_subpath,
        artifact_ext,
        archive_dir: archive,
    }
}

} // verus!
