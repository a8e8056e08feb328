use hyperzenith::hardware::calculate_profile;
use hyperzenith::hardware::get_hardware_profile;
use hyperzenith::paths::windows_to_wsl_path;
use hyperzenith::paths::artifact_output;

#[test]
fn test_path_conversion() {
    assert_eq!(windows_to_wsl_path("C:\\Users\\Game"), "/mnt/c/Users/Game");
    assert_eq!(windows_to_wsl_path("D:/Projects/App"), "/mnt/d/Projects/App");
    assert_eq!(windows_to_wsl_path("E:\\Work\\Dev"), "/mnt/e/Work/Dev");
}

#[test]
fn test_hardware_clamping() {
    let gigabyte = 1024 * 1024 * 1024;

    let hw_high = calculate_profile(32, 256 * gigabyte);
    assert_eq!(hw_high.jvm_heap_gb, 16);
    assert!(hw_high.max_workers >= 4);

    let hw_low = calculate_profile(2, 4 * gigabyte);
    assert_eq!(hw_low.jvm_heap_gb, 4);
    assert_eq!(hw_low.max_workers, 4);
}

#[test]
fn test_aab_path_logic() {
    let build_type = "aab".to_string();
    let (output_subpath, ext) = artifact_output(build_type.as_str());

    assert_eq!(ext, "aab");
    assert!(output_subpath.contains("bundle"));
    assert!(output_subpath.contains(".aab"));
}

#[test]
fn apk_artifact_path() {
    let (output_subpath, ext) = artifact_output("apk");
    assert_eq!(ext, "apk");
    assert_eq!(
        output_subpath,
        "android/app/build/outputs/apk/debug/app-debug.apk"
    );
}

#[test]
fn profile_worker_floor_and_exact_share() {
    let gigabyte: u64 = 1024 * 1024 * 1024;
    // floor(32 * 0.9) = 28
    let hw = calculate_profile(32, 256 * gigabyte);
    assert_eq!(hw.max_workers, 28);
    assert_eq!(hw.cpu_cores, 32);
    assert_eq!(hw.total_ram_gb, 256);
    // floor(2 * 0.9) = 1, clamped up to 4
    let hw_low = calculate_profile(2, 4 * gigabyte);
    assert_eq!(hw_low.max_workers, 4);
    assert_eq!(hw_low.total_ram_gb, 4);
}

#[test]
fn profile_bounds_hold_across_inputs() {
    let gigabyte: u64 = 1024 * 1024 * 1024;
    let cores = [0usize, 1, 2, 4, 5, 8, 16, 32, 64, 128, 1000];
    let rams = [0u64, 1, 2, 4, 8, 16, 31, 32, 33, 64, 256, 2048];
    for &c in cores.iter() {
        for &r in rams.iter() {
            let p = calculate_profile(c, r * gigabyte);
            assert!(p.max_workers >= 4);
            assert!(p.jvm_heap_gb >= 4 && p.jvm_heap_gb <= 16);
        }
    }
}

#[test]
fn profile_monotonic_in_each_input() {
    let gigabyte: u64 = 1024 * 1024 * 1024;
    let mut last_workers = 0usize;
    for c in 0usize..200 {
        let p = calculate_profile(c, 16 * gigabyte);
        assert!(p.max_workers >= last_workers);
        last_workers = p.max_workers;
    }
    let mut last_heap = 0usize;
    for r in 0u64..100 {
        let p = calculate_profile(8, r * gigabyte);
        assert!(p.jvm_heap_gb >= last_heap);
        last_heap = p.jvm_heap_gb;
    }
}

#[test]
fn profile_heap_clamp_edges() {
    let gigabyte: u64 = 1024 * 1024 * 1024;
    // 7 GB / 2 = 3, below the floor
    assert_eq!(calculate_profile(8, 7 * gigabyte).jvm_heap_gb, 4);
    // 8 GB / 2 = 4, exactly the floor
    assert_eq!(calculate_profile(8, 8 * gigabyte).jvm_heap_gb, 4);
    // 32 GB / 2 = 16, exactly the ceiling
    assert_eq!(calculate_profile(8, 32 * gigabyte).jvm_heap_gb, 16);
    // 33 GB / 2 = 16 (floor division)
    assert_eq!(calculate_profile(8, 33 * gigabyte).jvm_heap_gb, 16);
    // 30 GB / 2 = 15, inside the window
    assert_eq!(calculate_profile(8, 30 * gigabyte).jvm_heap_gb, 15);
}

#[test]
fn sampled_profile_obeys_bounds() {
    let p = get_hardware_profile();
    assert!(p.max_workers >= 4);
    assert!(p.jvm_heap_gb >= 4 && p.jvm_heap_gb <= 16);
}

#[test]
fn wsl_path_without_drive_letter() {
    assert_eq!(windows_to_wsl_path("relative\\dir"), "relative/dir");
    assert_eq!(windows_to_wsl_path(""), "");
    assert_eq!(windows_to_wsl_path("x"), "x");
}
