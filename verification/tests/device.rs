use candle_vllm::device::{select_device, DeviceKind};

#[test]
fn device_preference_cuda_then_metal_then_cpu() {
    assert_eq!(select_device(true, true), DeviceKind::Cuda);
    assert_eq!(select_device(true, false), DeviceKind::Cuda);
    assert_eq!(select_device(false, true), DeviceKind::Metal);
    assert_eq!(select_device(false, false), DeviceKind::Cpu);
}
