use kernel_test::mpu::{
    check_peripheral_base, check_region_boundaries, kernel_tests, power_of_two,
    test_mpu_basic_configuration, test_mpu_flash_protection, test_mpu_null_pointer_protection,
    test_mpu_overlapping_regions, test_mpu_peripheral_isolation, test_mpu_region_boundaries, Architecture,
    MpuTest,
};
use kernel_test::runner::{SyncTest, TestResult};

fn fail(msg: &'static str) -> TestResult {
    TestResult::Fail(msg.as_bytes())
}

#[test]
fn only_unknown_architectures_lack_an_mpu() {
    assert!(Architecture::Arm.has_mpu());
    assert!(Architecture::Riscv32.has_mpu());
    assert!(Architecture::Riscv64.has_mpu());
    assert!(!Architecture::Other.has_mpu());
}

#[test]
fn fail_carries_the_message_bytes() {
    assert_eq!(TestResult::fail("broken"), TestResult::Fail(b"broken"));
    assert_eq!(TestResult::fail(""), TestResult::Fail(b""));
    assert_eq!(TestResult::fail("gr\u{fc}n"), TestResult::Fail("gr\u{fc}n".as_bytes()));
}

#[test]
fn check_passes_or_fails_with_the_message() {
    assert_eq!(TestResult::check(true, "never shown"), TestResult::Pass);
    assert_eq!(TestResult::check(false, "region overlaps"), TestResult::Fail(b"region overlaps"));
}

#[test]
fn power_of_two_means_exactly_one_bit() {
    for n in [0u32, 1, 2, 3, 4, 5, 6, 7, 8, 31, 32, 33, 48, 0x8000_0000, 0x8000_0001, 0xffff_ffff, 0x4000_0000] {
        assert_eq!(power_of_two(n), n.count_ones() == 1);
    }
    for k in 0..32 {
        assert!(power_of_two(1u32 << k));
    }
}

#[test]
fn region_check_accepts_aligned_power_of_two_regions() {
    assert_eq!(check_region_boundaries(0x2000_0000, 32), TestResult::Pass);
    assert_eq!(check_region_boundaries(0x2000_0020, 32), TestResult::Pass);
    assert_eq!(check_region_boundaries(0, 0x8000_0000), TestResult::Pass);
    assert_eq!(check_region_boundaries(12345, 1), TestResult::Pass);
}

#[test]
fn region_check_rejects_a_misaligned_base() {
    assert_eq!(check_region_boundaries(0x2000_0010, 32), fail("Test address not properly aligned"));
    assert_eq!(check_region_boundaries(0x2000_0001, 2), fail("Test address not properly aligned"));
    assert_eq!(check_region_boundaries(1, 48), fail("Test address not properly aligned"));
}

#[test]
fn region_check_rejects_a_size_that_is_no_power_of_two() {
    assert_eq!(check_region_boundaries(0x2000_0000, 48), fail("Region size must be power of 2"));
    assert_eq!(check_region_boundaries(0, 3), fail("Region size must be power of 2"));
}

#[test]
fn peripheral_base_must_lie_on_a_64k_boundary() {
    assert_eq!(check_peripheral_base(0x4000_0000), TestResult::Pass);
    assert_eq!(check_peripheral_base(0x4001_0000), TestResult::Pass);
    assert_eq!(check_peripheral_base(0), TestResult::Pass);
    assert_eq!(check_peripheral_base(0x4000_8000), fail("Peripheral base not aligned to 64KB boundary"));
    assert_eq!(check_peripheral_base(0x4000_0001), fail("Peripheral base not aligned to 64KB boundary"));
}

#[test]
fn basic_configuration_needs_an_mpu() {
    assert_eq!(test_mpu_basic_configuration(Architecture::Arm), TestResult::Pass);
    assert_eq!(test_mpu_basic_configuration(Architecture::Riscv64), TestResult::Pass);
    assert_eq!(
        test_mpu_basic_configuration(Architecture::Other),
        fail("MPU tests not supported on this architecture")
    );
}

#[test]
fn mpu_tests_pass() {
    assert_eq!(test_mpu_region_boundaries(), TestResult::Pass);
    assert_eq!(test_mpu_flash_protection(), TestResult::Pass);
    assert_eq!(test_mpu_peripheral_isolation(), TestResult::Pass);
    assert_eq!(test_mpu_overlapping_regions(), TestResult::Pass);
    assert_eq!(test_mpu_null_pointer_protection(), TestResult::Pass);
}

#[test]
fn registered_tests_run_the_functions_they_name() {
    let tests = [
        MpuTest::BasicConfiguration(Architecture::Riscv32),
        MpuTest::RegionBoundaries,
        MpuTest::FlashProtection,
        MpuTest::PeripheralIsolation,
        MpuTest::OverlappingRegions,
        MpuTest::NullPointerProtection,
    ];
    let names = [
        "test_mpu_basic_configuration",
        "test_mpu_region_boundaries",
        "test_mpu_flash_protection",
        "test_mpu_peripheral_isolation",
        "test_mpu_overlapping_regions",
        "test_mpu_null_pointer_protection",
    ];
    for (test, name) in tests.iter().zip(names) {
        assert_eq!(test.name(), name);
        assert_eq!(test.descriptor().name, name);
        assert_eq!(test.run(), TestResult::Pass);
    }
    assert_eq!(
        MpuTest::BasicConfiguration(Architecture::Other).run(),
        fail("MPU tests not supported on this architecture")
    );
}

#[test]
fn module_registers_six_tests() {
    let tests = kernel_tests(Architecture::Arm);
    assert_eq!(tests.len(), 6);
    assert_eq!(tests[1].name, "test_mpu_region_boundaries");
}
