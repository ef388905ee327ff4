use cndrv::cnrtc::{CnrtcStatus, CompileAction, CompileEvent, KernelClass, KernelLaunch};
use cndrv::{CnrtcBinary, KernelFn, Queue};

#[test]
fn compile_options_for_isa() {
    assert_eq!(CnrtcBinary::compile_options(372), vec!["-O3", "--bang-mlu-arch=mtp_372"]);
    assert_eq!(CnrtcBinary::compile_options(-5)[1], "--bang-mlu-arch=mtp_-5");
}

#[test]
fn compilation_log_text() {
    assert_eq!(CnrtcBinary::compilation_log(&[]), "");
    assert_eq!(CnrtcBinary::compilation_log(&[0]), "");
    assert_eq!(CnrtcBinary::compilation_log(b"  warning: x\n\0"), "warning: x");
    assert_eq!(CnrtcBinary::compilation_log(b"\t\n \0"), "");
    assert_eq!(CnrtcBinary::compilation_log(b"ab"), "a");
}

#[test]
fn compile_success_reads_binary_and_destroys_code() {
    let (mut c, first) = CnrtcBinary::compile("kernel", 592);
    match first {
        CompileAction::CreateCode(source) => assert_eq!(source, b"kernel".to_vec()),
        other => panic!("unexpected {other:?}"),
    }
    match c.step(CompileEvent::Created) {
        CompileAction::CompileCode(options) => {
            assert_eq!(options, vec!["-O3", "--bang-mlu-arch=mtp_592"])
        }
        other => panic!("unexpected {other:?}"),
    }
    assert!(matches!(c.step(CompileEvent::Compiled(CnrtcStatus::Success)), CompileAction::GetLogSize));
    assert!(matches!(c.step(CompileEvent::LogSize(6)), CompileAction::GetLog(6)));
    assert!(matches!(c.step(CompileEvent::Log(b" ok  \0".to_vec())), CompileAction::GetBinarySize));
    assert!(matches!(c.step(CompileEvent::BinarySize(3)), CompileAction::GetBinary(3)));
    assert!(matches!(c.step(CompileEvent::Binary(vec![1, 2, 3])), CompileAction::DestroyCode));
    assert!(matches!(c.step(CompileEvent::Destroyed), CompileAction::Finish));
    let (result, log) = c.finish();
    assert_eq!(result.unwrap().as_bytes(), &[1, 2, 3]);
    assert_eq!(log, "ok");
}

#[test]
fn compile_failure_keeps_status_and_log() {
    let (mut c, _) = CnrtcBinary::compile("bad", 372);
    c.step(CompileEvent::Created);
    c.step(CompileEvent::Compiled(CnrtcStatus::Failure(3)));
    assert!(matches!(c.step(CompileEvent::LogSize(7)), CompileAction::GetLog(7)));
    assert!(matches!(c.step(CompileEvent::Log(b"error!\0".to_vec())), CompileAction::Finish));
    let (result, log) = c.finish();
    assert_eq!(result.unwrap_err(), CnrtcStatus::Failure(3));
    assert_eq!(log, "error!");
}

#[test]
fn compile_without_log() {
    let (mut c, _) = CnrtcBinary::compile("k", 1);
    c.step(CompileEvent::Created);
    c.step(CompileEvent::Compiled(CnrtcStatus::Success));
    assert!(matches!(c.step(CompileEvent::LogSize(1)), CompileAction::GetBinarySize));
    let (mut d, _) = CnrtcBinary::compile("k", 1);
    d.step(CompileEvent::Created);
    d.step(CompileEvent::Compiled(CnrtcStatus::Failure(9)));
    assert!(matches!(d.step(CompileEvent::LogSize(0)), CompileAction::Finish));
    let (result, log) = d.finish();
    assert_eq!(result.unwrap_err(), CnrtcStatus::Failure(9));
    assert_eq!(log, "");
}

#[test]
fn kernel_launch_orders_dimensions() {
    let queue = Queue { ctx: 1, raw: 0x77 };
    assert_eq!(
        KernelFn(0x99).launch(4, 2, 1, &queue),
        KernelLaunch {
            kernel: 0x99,
            dim_x: 1,
            dim_y: 2,
            dim_z: 4,
            class: KernelClass::Block,
            reserve: 0,
            queue: 0x77,
        }
    );
}
