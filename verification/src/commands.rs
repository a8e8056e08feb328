//! Construction of the shell commands a build session issues: the local
//! Gradle build, the remote hydration-and-build script, the pre-flight
//! toolchain check, the recovery sequence, and the file-sync invocation.

use vstd::prelude::*;
use crate::connection::{spec_ssh_options, spec_host_part, spec_port_part, get_ssh_options,
    parse_ip_and_port, MacConfig};
use crate::paths::{spec_slashes, spec_wsl_path, replace_backslashes, windows_to_wsl_path};
use crate::strutil::{spec_contains, spec_decimal, contains_str, str_eq, usize_to_string};

verus! {

/// The Gradle task for the chosen package format: bundle or plain
/// package.
pub fn gradle_task(build_type: &str) -> (r: &'static str)
    ensures
        build_type@ == "aab"@ ==> r@ == "bundleDebug"@,
        build_type@ != "aab"@ ==> r@ == "assembleDebug"@,
{
    if str_eq(build_type, "aab") {
        "bundleDebug"
    } else {
        "assembleDebug"
    }
}

/// The WSL mount path of the Android SDK under the local application
/// data directory, with the stock fallback when none is configured.
pub open spec fn spec_android_sdk_source(local_app_data: Option<Seq<char>>) -> Seq<char> {
    match local_app_data {
        Some(p) => spec_slashes(p) + "/Android/Sdk"@,
        None => "C:/Users/Default/AppData/Local"@ + "/Android/Sdk"@,
    }
}

/// Resolves the Android SDK's WSL path from the local application data
/// directory, if one is known.
pub fn android_sdk_wsl_path(local_app_data: &Option<String>) -> (r: String)
    ensures
        r@ == spec_wsl_path(
            spec_android_sdk_source(
                match local_app_data {
                    Some(p) => Some(p@),
                    None => None,
                },
            ),
        ),
{
    let mut win: String = match local_app_data {
        Some(p) => replace_backslashes(p.as_str()),
        None => String::from_str("C:/Users/Default/AppData/Local"),
    };
    win.append("/Android/Sdk");
    windows_to_wsl_path(win.as_str())
}

/// The aggressive local build command: environment exports, heap and
/// worker sizing, cache and parallel flags, lint and tests skipped.
pub open spec fn spec_turbo_build_command(
    sdk_path: Seq<char>,
    heap_gb: nat,
    wsl_path: Seq<char>,
    task: Seq<char>,
    max_workers: nat,
) -> Seq<char> {
    "export NODE_ENV=development && export ANDROID_HOME="@ + sdk_path
        + " && export PATH=$ANDROID_HOME/platform-tools:$ANDROID_HOME/cmdline-tools/latest/bin:$PATH && export GRADLE_OPTS=\"-Xmx"@
        + spec_decimal(heap_gb)
        + "g -XX:+UseParallelGC -XX:MaxMetaspaceSize=1g -Dorg.gradle.daemon.idletimeout=3600000\" && cd '"@
        + wsl_path + "/android' && chmod +x ./gradlew && ./gradlew "@ + task
        + " --parallel --build-cache --configuration-cache --configuration-cache-problems=warn --max-workers="@
        + spec_decimal(max_workers)
        + " -Dorg.gradle.caching=true -Dorg.gradle.parallel=true -Dorg.gradle.vfs.watch=true -Dkotlin.incremental=true -x lint -x test 2>&1"@
}

/// Builds the aggressive local build command.
pub fn turbo_build_command(
    sdk_path: &str,
    heap_gb: usize,
    wsl_path: &str,
    task: &str,
    max_workers: usize,
) -> (r: String)
    ensures
        r@ == spec_turbo_build_command(
            sdk_path@,
            heap_gb as nat,
            wsl_path@,
            task@,
            max_workers as nat,
        ),
{
    let mut s = String::from_str("export NODE_ENV=development && export ANDROID_HOME=");
    s.append(sdk_path);
    s.append(
        " && export PATH=$ANDROID_HOME/platform-tools:$ANDROID_HOME/cmdline-tools/latest/bin:$PATH && export GRADLE_OPTS=\"-Xmx",
    );
    s.append(usize_to_string(heap_gb).as_str());
    s.append(
        "g -XX:+UseParallelGC -XX:MaxMetaspaceSize=1g -Dorg.gradle.daemon.idletimeout=3600000\" && cd '",
    );
    s.append(wsl_path);
    s.append("/android' && chmod +x ./gradlew && ./gradlew ");
    s.append(task);
    s.append(
        " --parallel --build-cache --configuration-cache --configuration-cache-problems=warn --max-workers=",
    );
    s.append(usize_to_string(max_workers).as_str());
    s.append(
        " -Dorg.gradle.caching=true -Dorg.gradle.parallel=true -Dorg.gradle.vfs.watch=true -Dkotlin.incremental=true -x lint -x test 2>&1",
    );
    s
}

/// The plain local build command used outside turbo mode.
pub open spec fn spec_standard_build_command(wsl_path: Seq<char>) -> Seq<char> {
    "export NODE_ENV=development && cd '"@ + wsl_path
        + "' && npx eas build --platform android --local --profile preview --non-interactive 2>&1"@
}

/// Builds the plain local build command.
pub fn standard_build_command(wsl_path: &str) -> (r: String)
    ensures
        r@ == spec_standard_build_command(wsl_path@),
{
    let mut s = String::from_str("export NODE_ENV=development && cd '");
    s.append(wsl_path);
    s.append("' && npx eas build --platform android --local --profile preview --non-interactive 2>&1");
    s
}

/// The command that warms the Gradle daemon ahead of a build.
pub fn prewarm_command(wsl_path: &str) -> (r: String)
    ensures
        r@ == "cd '"@ + wsl_path@ + "/android' && ./gradlew --version"@,
{
    let mut s = String::from_str("cd '");
    s.append(wsl_path);
    s.append("/android' && ./gradlew --version");
    s
}

/// The cheap pre-flight check for the remote toolchain, run before the
/// expensive hydration and build.
pub fn preflight_command() -> (r: &'static str)
    ensures
        r@ == "which xcodebuild || echo 'XCODE_NOT_FOUND'"@,
{
    "which xcodebuild || echo 'XCODE_NOT_FOUND'"
}

/// Whether the pre-flight output shows a usable toolchain: the marker
/// the check echoes on a miss must be absent.
pub fn preflight_passed(output: &str) -> (r: bool)
    ensures
        r == !spec_contains(output@, "XCODE_NOT_FOUND"@),
{
    !contains_str(output, "XCODE_NOT_FOUND")
}

/// The destination selector of the remote build: a device target or the
/// simulator.
pub fn ios_destination(build_type: &str) -> (r: &'static str)
    ensures
        build_type@ == "device"@ ==> r@ == "generic/platform=iOS"@,
        build_type@ != "device"@ ==> r@ == "platform=iOS Simulator,name=iPhone 15"@,
{
    if str_eq(build_type, "device") {
        "generic/platform=iOS"
    } else {
        "platform=iOS Simulator,name=iPhone 15"
    }
}

/// The dependency hydration step run before the remote build: a strict,
/// offline-friendly install when a lockfile is present, a permissive
/// install otherwise, then the native-dependency link step when its
/// artifacts are absent.
pub open spec fn spec_ios_hydration_command() -> Seq<char> {
    "if [ ! -d 'node_modules' ]; then if [ -f 'package-lock.json' ]; then echo '>> Hydrating with npm ci (Strict)...'; npm ci --prefer-offline; else echo '>> Hydrating with npm install (Fallback)...'; npm install; fi fi; if [ -d 'ios' ]; then cd ios; echo '>> verifying pods...'; if [ ! -d 'Pods' ]; then echo '>> Initializing Pods...'; pod install; fi; cd ..; fi"@
}

/// Hands out the hydration step as executable text.
pub fn ios_hydration_command() -> (r: &'static str)
    ensures
        r@ == spec_ios_hydration_command(),
{
    "if [ ! -d 'node_modules' ]; then if [ -f 'package-lock.json' ]; then echo '>> Hydrating with npm ci (Strict)...'; npm ci --prefer-offline; else echo '>> Hydrating with npm install (Fallback)...'; npm install; fi fi; if [ -d 'ios' ]; then cd ios; echo '>> verifying pods...'; if [ ! -d 'Pods' ]; then echo '>> Initializing Pods...'; pod install; fi; cd ..; fi"
}

/// The remote hydration-and-build command: change into the synced tree,
/// hydrate, and run the toolchain build for the chosen scheme and
/// destination with the fast-debug settings.
pub open spec fn spec_ios_build_command(
    remote_path: Seq<char>,
    hydration: Seq<char>,
    scheme: Seq<char>,
    destination: Seq<char>,
) -> Seq<char> {
    "cd "@ + remote_path + " && "@ + hydration + " && cd ios && xcodebuild -workspace "@ + scheme
        + ".xcworkspace -scheme "@ + scheme + " -configuration Debug -destination '"@ + destination
        + "' COMPILER_INDEX_STORE_ENABLE=NO DEBUG_INFORMATION_FORMAT=dwarf RCT_NO_LAUNCH_PACKAGER=1"@
}

/// Builds the remote hydration-and-build command.
pub fn ios_build_command(remote_path: &str, scheme: &str, destination: &str) -> (r: String)
    ensures
        r@ == spec_ios_build_command(
            remote_path@,
            spec_ios_hydration_command(),
            scheme@,
            destination@,
        ),
{
    let hydration = ios_hydration_command();
    let mut s = String::from_str("cd ");
    s.append(remote_path);
    s.append(" && ");
    s.append(hydration);
    s.append(" && cd ios && xcodebuild -workspace ");
    s.append(scheme);
    s.append(".xcworkspace -scheme ");
    s.append(scheme);
    s.append(" -configuration Debug -destination '");
    s.append(destination);
    s.append(
        "' COMPILER_INDEX_STORE_ENABLE=NO DEBUG_INFORMATION_FORMAT=dwarf RCT_NO_LAUNCH_PACKAGER=1",
    );
    s
}

/// The fixed recovery sequence: kill the build tools (best-effort),
/// clean the workspace, purge derived data and dependency caches, reset
/// the simulators, clear temp files, and re-hydrate. Structural steps
/// abort the remainder on failure; the steps marked best-effort do not.
pub open spec fn spec_recovery_command(remote_path: Seq<char>) -> Seq<char> {
    "set -e; echo 'Step 1: Killing Processes...'; killall Xcode xcodebuild CoreSimulatorBridge || true; echo 'Step 2: Cleaning Project...'; cd "@
        + remote_path
        + "/ios && xcodebuild clean; echo 'Step 3: Purging DerivedData...'; rm -rf ~/Library/Developer/Xcode/DerivedData/*; echo 'Step 4: Purging CocoaPods Caches (Global & Local)...'; rm -rf ~/Library/Caches/CocoaPods; rm -rf Pods Podfile.lock; echo 'Step 5: Resetting Simulators...'; xcrun simctl erase all; echo 'Step 6: Cleaning React Native Temp...'; rm -rf $TMPDIR/react-* $TMPDIR/metro-*; watchman watch-del-all || true; echo 'Step 7: Re-Hydrating...'; pod install --repo-update; echo 'NUKE COMPLETE';"@
}

/// Builds the recovery command for the given remote workspace.
pub fn recovery_command(remote_path: &str) -> (r: String)
    ensures
        r@ == spec_recovery_command(remote_path@),
{
    let mut s = String::from_str(
        "set -e; echo 'Step 1: Killing Processes...'; killall Xcode xcodebuild CoreSimulatorBridge || true; echo 'Step 2: Cleaning Project...'; cd ",
    );
    s.append(remote_path);
    s.append(
        "/ios && xcodebuild clean; echo 'Step 3: Purging DerivedData...'; rm -rf ~/Library/Developer/Xcode/DerivedData/*; echo 'Step 4: Purging CocoaPods Caches (Global & Local)...'; rm -rf ~/Library/Caches/CocoaPods; rm -rf Pods Podfile.lock; echo 'Step 5: Resetting Simulators...'; xcrun simctl erase all; echo 'Step 6: Cleaning React Native Temp...'; rm -rf $TMPDIR/react-* $TMPDIR/metro-*; watchman watch-del-all || true; echo 'Step 7: Re-Hydrating...'; pod install --repo-update; echo 'NUKE COMPLETE';",
    );
    s
}

/// The argument list of the file-sync invocation: archive mode over ssh
/// with the configured port and key, a stalled-transfer timeout, the
/// build trees and machine-local files excluded, from the local tree to
/// `user@host:remote`.
pub fn rsync_args(local_path: &str, config: &MacConfig, remote_path: &str) -> (r: Vec<String>)
    ensures
        r@.len() == 21,
        r@[0]@ == "rsync"@,
        r@[1]@ == "-avz"@,
        r@[2]@ == "--timeout=120"@,
        r@[3]@ == "-e"@,
        r@[4]@ == "ssh "@ + spec_ssh_options(
            spec_port_part(config.ip@),
            match config.ssh_key_path {
                Some(k) => Some(k@),
                None => None,
            },
        ),
        r@[5]@ == "--exclude"@ && r@[6]@ == "node_modules"@,
        r@[7]@ == "--exclude"@ && r@[8]@ == ".git"@,
        r@[9]@ == "--exclude"@ && r@[10]@ == "android"@,
        r@[11]@ == "--exclude"@ && r@[12]@ == "ios/Pods"@,
        r@[13]@ == "--exclude"@ && r@[14]@ == "ios/build"@,
        r@[15]@ == "--exclude"@ && r@[16]@ == "ios/DerivedData"@,
        r@[17]@ == "--exclude"@ && r@[18]@ == "ios/.xcode.env.local"@,
        r@[19]@ == local_path@,
        r@[20]@ == config.username@ + "@"@ + spec_host_part(config.ip@) + ":"@ + remote_path@,
{
    let (host, port) = parse_ip_and_port(config.ip.as_str());
    let mut ssh_opts = String::from_str("ssh ");
    ssh_opts.append(get_ssh_options(port, &config.ssh_key_path).as_str());

    let mut destination = String::from_str(config.username.as_str());
    destination.append("@");
    destination.append(host);
    destination.append(":");
    destination.append(remote_path);

    let mut args: Vec<String> = Vec::new();
    args.push(String::from_str("rsync"));
    args.push(String::from_str("-avz"));
    args.push(String::from_str("--timeout=120"));
    args.push(String::from_str("-e"));
    args.push(ssh_opts);
    args.push(String::from_str("--exclude"));
    args.push(String::from_str("node_modules"));
    args.push(String::from_str("--exclude"));
    args.push(String::from_str(".git"));
    args.push(String::from_str("--exclude"));
    args.push(String::from_str("android"));
    args.push(String::from_str("--exclude"));
    args.push(String::from_str("ios/Pods"));
    args.push(String::from_str("--exclude"));
    args.push(String::from_str("ios/build"));
    args.push(String::from_str("--exclude"));
    args.push(String::from_str("ios/DerivedData"));
    args.push(String::from_str("--exclude"));
    args.push(String::from_str("ios/.xcode.env.local"));
    args.push(String::from_str(local_path));
    args.push(destination);
    args
}

} // verus!
