use psp::sys::ge::GeListArgs;
use psp::sys::rtc::CheckValidError;
use psp::sys::ctrl::PspCtrlButtons;
use psp::sys::power::Callback;
use psp::sys::kernel::SceSysMemPartitionId;

#[test]
fn ge_list_args_default_is_empty() {
    let a = GeListArgs::default();
    assert_eq!(a.size, 0);
    assert_eq!(a.context, 0);
    assert_eq!(a.num_stacks, 0);
    assert_eq!(a.stacks, 0);
}

#[test]
fn check_valid_errors_decode() {
    assert_eq!(CheckValidError::from_i32(-1), Some(CheckValidError::InvalidYear));
    assert_eq!(CheckValidError::from_i32(-7), Some(CheckValidError::InvalidMicroseconds));
    assert_eq!(CheckValidError::from_i32(0), None);
    assert_eq!(CheckValidError::from_i32(-8), None);
    assert_eq!(CheckValidError::InvalidDay.to_i32(), -3);
}

#[test]
fn flag_values() {
    assert_eq!(PspCtrlButtons::Cross.to_u32(), 0x4000);
    assert_eq!(PspCtrlButtons::MS.to_u32(), 0x2000000);
    assert_eq!(Callback::PowerSwitch.to_u32(), 0x8000_0000);
    assert_eq!(SceSysMemPartitionId::SceKernelExtendedKernelPartition.to_i32(), 12);
}
