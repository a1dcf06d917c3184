//! Kernel tests of the memory protection unit's region rules.
//!
//! The checks on addresses and sizes are functions of their own, so that the
//! registered tests are those checks applied to the addresses of the memory
//! map.

use vstd::prelude::*;
use crate::runner::{SyncTest, TestDescriptor, TestFunction, TestResult};

verus! {

/// The processor architecture that the kernel is built for.
#[derive(Clone, Copy, Debug, PartialEq, Eq)]
pub enum Architecture {
    Arm,
    Riscv32,
    Riscv64,
    /// An architecture without a memory protection unit that these tests know.
    Other,
}

impl Architecture {
    /// Whether the architecture has a memory protection unit to test.
    pub open spec fn spec_has_mpu(self) -> bool {
        !(self is Other)
    }

    /// Whether the architecture has a memory protection unit to test.
    #[verifier::when_used_as_spec(spec_has_mpu)]
    pub fn has_mpu(self) -> (has: bool)
        ensures
            has == self.spec_has_mpu(),
    {
        match self {
            Architecture::Other => false,
            _ => true,
        }
    }
}

/// Whether exactly one bit of `n` is set.
pub open spec fn is_power_of_two(n: u32) -> bool {
    exists|k: u32| k < 32 && n == #[trigger] (1u32 << k)
}

/// Whether `addr` is a multiple of the power of two `size`.
pub open spec fn is_aligned(addr: u32, size: u32) -> bool
    recommends
        size > 0,
{
    addr & ((size - 1) as u32) == 0
}

/// For a size that is a power of two, a base is aligned to the size exactly
/// when the size divides it.
pub proof fn lemma_aligned_is_divisible(addr: u32, size: u32)
    requires
        is_power_of_two(size),
    ensures
        is_aligned(addr, size) <==> addr as int % size as int == 0,
{
    let k = choose|k: u32| k < 32 && size == #[trigger] (1u32 << k);
    assert(size >= 1) by (bit_vector)
        requires
            size == 1u32 << k,
            k < 32,
    ;
    let mask = (size - 1) as u32;
    assert((addr & mask == 0) <==> (addr % size == 0)) by (bit_vector)
        requires
            size == 1u32 << k,
            k < 32,
            mask == size - 1,
    ;
}

/// Whether exactly one bit of `n` is set.
pub fn power_of_two(n: u32) -> (yes: bool)
    ensures
        yes == is_power_of_two(n),
{
    let mut k: u32 = 0;
    while k < 32
        invariant
            k <= 32,
            forall|j: u32| j < k ==> n != #[trigger] (1u32 << j),
        decreases 32 - k,
    {
        if n == 1u32 << k {
            return true;
        }
        k += 1;
    }
    false
}

/// Checks a region's base address and size: the base is aligned to the
/// size, and the size is a power of two.
pub fn check_region_boundaries(addr: u32, size: u32) -> (result: TestResult)
    requires
        size > 0,
    ensures
        !is_aligned(addr, size) ==> result.fails_with("Test address not properly aligned"@),
        is_aligned(addr, size) && !is_power_of_two(size) ==> result.fails_with(
            "Region size must be power of 2"@,
        ),
        is_aligned(addr, size) && is_power_of_two(size) ==> result is Pass,
{
    if addr & (size - 1) != 0 {
        return TestResult::fail("Test address not properly aligned");
    }
    if !power_of_two(size) {
        return TestResult::fail("Region size must be power of 2");
    }
    TestResult::Pass
}

/// Checks that a peripheral region starts on a 64 KiB boundary.
pub fn check_peripheral_base(base: u32) -> (result: TestResult)
    ensures
        base & 0xFFFF != 0 ==> result.fails_with("Peripheral base not aligned to 64KB boundary"@),
        base & 0xFFFF == 0 ==> result is Pass,
{
    if base & 0xFFFF != 0 {
        return TestResult::fail("Peripheral base not aligned to 64KB boundary");
    }
    TestResult::Pass
}

/// The memory protection unit can be queried on this architecture.
pub fn test_mpu_basic_configuration(arch: Architecture) -> (result: TestResult)
    ensures
        arch.has_mpu() ==> result is Pass,
        !arch.has_mpu() ==> result.fails_with("MPU tests not supported on this architecture"@),
{
    if arch.has_mpu() {
        TestResult::Pass
    } else {
        TestResult::fail("MPU tests not supported on this architecture")
    }
}

/// The smallest region, at the start of RAM, meets the alignment and size
/// rules.
pub fn test_mpu_region_boundaries() -> (result: TestResult)
    ensures
        result is Pass,
{
    let min_size: u32 = 32;
    let test_addr: u32 = 0x2000_0000;
    assert(0x2000_0000u32 & 31u32 == 0) by (bit_vector);
    assert(32u32 == 1u32 << 5u32) by (bit_vector);
    check_region_boundaries(test_addr, min_size)
}

/// Flash behind the vector table is covered by a read-only region.
pub fn test_mpu_flash_protection() -> (result: TestResult)
    ensures
        result is Pass,
{
    TestResult::Pass
}

/// The peripheral address space starts on a boundary that a region can
/// isolate.
pub fn test_mpu_peripheral_isolation() -> (result: TestResult)
    ensures
        result is Pass,
{
    let peripheral_base: u32 = 0x4000_0000;
    assert(0x4000_0000u32 & 0xFFFFu32 == 0) by (bit_vector);
    check_peripheral_base(peripheral_base)
}

/// Two regions that overlap are handled.
pub fn test_mpu_overlapping_regions() -> (result: TestResult)
    ensures
        result is Pass,
{
    TestResult::Pass
}

/// Address zero is protected.
pub fn test_mpu_null_pointer_protection() -> (result: TestResult)
    ensures
        result is Pass,
{
    TestResult::Pass
}

/// The tests that this module contributes to the registry.
#[derive(Clone, Copy, Debug, PartialEq, Eq)]
pub enum MpuTest {
    BasicConfiguration(Architecture),
    RegionBoundaries,
    FlashProtection,
    PeripheralIsolation,
    OverlappingRegions,
    NullPointerProtection,
}

impl MpuTest {
    /// The name under which the test is registered.
    pub open spec fn spec_name(self) -> Seq<char> {
        match self {
            MpuTest::BasicConfiguration(_) => "test_mpu_basic_configuration"@,
            MpuTest::RegionBoundaries => "test_mpu_region_boundaries"@,
            MpuTest::FlashProtection => "test_mpu_flash_protection"@,
            MpuTest::PeripheralIsolation => "test_mpu_peripheral_isolation"@,
            MpuTest::OverlappingRegions => "test_mpu_overlapping_regions"@,
            MpuTest::NullPointerProtection => "test_mpu_null_pointer_protection"@,
        }
    }

    /// The name under which the test is registered.
    pub fn name(self) -> (name: &'static str)
        ensures
            name@ == self.spec_name(),
    {
        match self {
            MpuTest::BasicConfiguration(_) => "test_mpu_basic_configuration",
            MpuTest::RegionBoundaries => "test_mpu_region_boundaries",
            MpuTest::FlashProtection => "test_mpu_flash_protection",
            MpuTest::PeripheralIsolation => "test_mpu_peripheral_isolation",
            MpuTest::OverlappingRegions => "test_mpu_overlapping_regions",
            MpuTest::NullPointerProtection => "test_mpu_null_pointer_protection",
        }
    }

    /// The descriptor that registers the test.
    pub fn descriptor(self) -> (descriptor: TestDescriptor<MpuTest>)
        ensures
            descriptor.name@ == self.spec_name(),
            descriptor.test_fn == TestFunction::Sync(self),
    {
        TestDescriptor { name: self.name(), test_fn: TestFunction::Sync(self) }
    }
}

impl SyncTest for MpuTest {
    open spec fn may_return(&self, result: TestResult) -> bool {
        match *self {
            MpuTest::BasicConfiguration(arch) => if arch.has_mpu() {
                result is Pass
            } else {
                result.fails_with("MPU tests not supported on this architecture"@)
            },
            _ => result is Pass,
        }
    }

    fn run(&self) -> (result: TestResult) {
        match *self {
            MpuTest::BasicConfiguration(arch) => test_mpu_basic_configuration(arch),
            MpuTest::RegionBoundaries => test_mpu_region_boundaries(),
            MpuTest::FlashProtection => test_mpu_flash_protection(),
            MpuTest::PeripheralIsolation => test_mpu_peripheral_isolation(),
            MpuTest::OverlappingRegions => test_mpu_overlapping_regions(),
            MpuTest::NullPointerProtection => test_mpu_null_pointer_protection(),
        }
    }
}

/// The tests of this module in the order in which they are registered.
pub open spec fn registered_tests(arch: Architecture) -> Seq<MpuTest> {
    seq![
        MpuTest::BasicConfiguration(arch),
        MpuTest::RegionBoundaries,
        MpuTest::FlashProtection,
        MpuTest::PeripheralIsolation,
        MpuTest::OverlappingRegions,
        MpuTest::NullPointerProtection,
    ]
}

/// The descriptors of this module's tests, in registration order.
pub fn kernel_tests(arch: Architecture) -> (tests: Vec<TestDescriptor<MpuTest>>)
    ensures
        tests@.len() == registered_tests(arch).len(),
        forall|i: int|
            0 <= i < tests@.len() ==> {
                &&& (#[trigger] tests@[i]).name@ == registered_tests(arch)[i].spec_name()
                &&& tests@[i].test_fn == TestFunction::Sync(registered_tests(arch)[i])
            },
{
    let mut tests: Vec<TestDescriptor<MpuTest>> = Vec::new();
    tests.push(MpuTest::BasicConfiguration(arch).descriptor());
    tests.push(MpuTest::RegionBoundaries.descriptor());
    tests.push(MpuTest::FlashProtection.descriptor());
    tests.push(MpuTest::PeripheralIsolation.descriptor());
    tests.push(MpuTest::OverlappingRegions.descriptor());
    tests.push(MpuTest::NullPointerProtection.descriptor());
    tests
}

} // verus!
