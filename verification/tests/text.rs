use glctx::matrices::MatrixStack;
use glctx::sys::ClearMask;
use glctx::sys::FramebufferStatus;
use glctx::sys::ShaderType;
use glctx::text::decimal;
use glctx::text::hex;

/// Hexadecimal numbers have a prefix, lower-case digits and no leading
/// zeros.
#[test]
fn hexadecimal_text() {
    assert_eq!(hex(0), "0x0");
    assert_eq!(hex(9), "0x9");
    assert_eq!(hex(10), "0xa");
    assert_eq!(hex(0x10), "0x10");
    assert_eq!(hex(0x501), "0x501");
    assert_eq!(hex(0xdead_beef), "0xdeadbeef");
    assert_eq!(hex(u32::MAX), "0xffffffff");
    for value in [0u32, 1, 15, 16, 255, 256, 0x8CD5, 0x7fff_ffff] {
        assert_eq!(hex(value), format!("{value:#x}"));
    }
}

/// Decimal numbers have no leading zeros.
#[test]
fn decimal_text() {
    assert_eq!(decimal(0), "0");
    assert_eq!(decimal(7), "7");
    assert_eq!(decimal(10), "10");
    assert_eq!(decimal(330), "330");
    assert_eq!(decimal(u64::MAX), "18446744073709551615");
    for value in [9u64, 11, 99, 100, 101, 4096, 1_000_000] {
        assert_eq!(decimal(value), value.to_string());
    }
}

/// The stages of the pipeline are named in diagnostics.
#[test]
fn shader_stage_names() {
    assert_eq!(ShaderType::Vertex.as_str(), "vertex");
    assert_eq!(ShaderType::Fragment.as_str(), "fragment");
    assert_eq!(ShaderType::Vertex.to_code(), 0x8B31);
    assert_eq!(ShaderType::Fragment.to_code(), 0x8B30);
}

/// Clear masks combine bit by bit.
#[test]
fn clear_masks() {
    assert_eq!(ClearMask::color_buffer().to_bits(), 0x4000);
    assert_eq!(ClearMask::depth_buffer().to_bits(), 0x0100);
    let both = ClearMask::color_buffer() | ClearMask::depth_buffer();
    assert_eq!(both.to_bits(), 0x4100);
    assert_eq!(both, ClearMask::depth_buffer().union(ClearMask::color_buffer()));
    let mut mask = ClearMask::depth_buffer();
    mask.insert(ClearMask::depth_buffer());
    assert_eq!(mask, ClearMask::depth_buffer());
    mask.insert(ClearMask::color_buffer());
    assert_eq!(mask, both);
}

/// Only one status is that of a complete framebuffer.
#[test]
fn framebuffer_statuses() {
    assert!(FramebufferStatus::complete().check_complete());
    assert_eq!(FramebufferStatus::complete().to_code(), 0x8CD5);
    assert_eq!(FramebufferStatus::complete().to_text(), "0x8cd5");
    assert!(!FramebufferStatus::from_code(0).check_complete());
    assert!(!FramebufferStatus::from_code(0x8CD6).check_complete());
    assert_eq!(FramebufferStatus::from_code(0x8CD5), FramebufferStatus::complete());
}

/// A matrix stack knows how many matrices it can still take.
#[test]
fn matrix_stack_capacity() {
    let mut stack = MatrixStack::<u8, 3, _>::new(|_: &u8| {});
    assert_eq!(stack.remaining(), 2);
    let () = stack.push(|matrix| *matrix = 1);
    let () = stack.push(|matrix| *matrix += 1);
    assert_eq!(stack.remaining(), 0);
    assert_eq!(stack.depth(), 3);
    assert_eq!(*stack.top(), 2);
    let () = stack.pop();
    assert_eq!(*stack.top(), 1);
    assert_eq!(stack.remaining(), 1);
}
