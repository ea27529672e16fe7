use std::cell::Cell;
use std::cell::RefCell;

use glium_c_backend::CBackend;
use glium_c_backend::SwapBuffersError;

#[test]
fn swap_true_returns_ok() {
    let calls = Cell::new(0u32);
    let backend = CBackend::new(
        42,
        |h: usize| {
            assert_eq!(h, 42);
            calls.set(calls.get() + 1);
            true
        },
        |_h: usize, _name: Vec<u8>| 0usize,
        |_h: usize| (0u32, 0u32),
        |_h: usize| false,
        |_h: usize| {},
    );
    assert_eq!(backend.swap_buffers(), Ok(()));
    assert_eq!(calls.get(), 1);
    assert_eq!(backend.swap_buffers(), Ok(()));
    assert_eq!(calls.get(), 2);
}

#[test]
fn swap_false_returns_context_lost_once_per_call() {
    let calls = Cell::new(0u32);
    let backend = CBackend::new(
        7,
        |_h: usize| {
            calls.set(calls.get() + 1);
            false
        },
        |_h: usize, _name: Vec<u8>| 0usize,
        |_h: usize| (0u32, 0u32),
        |_h: usize| false,
        |_h: usize| {},
    );
    assert_eq!(backend.swap_buffers(), Err(SwapBuffersError::ContextLost));
    assert_eq!(calls.get(), 1);
    assert_eq!(backend.swap_buffers(), Err(SwapBuffersError::ContextLost));
    assert_eq!(calls.get(), 2);
}

#[test]
fn resolve_returns_exactly_what_the_resolver_returns() {
    let backend = CBackend::new(
        9,
        |_h: usize| true,
        |h: usize, name: Vec<u8>| {
            assert_eq!(h, 9);
            if name == b"glClear\0" {
                0x1234usize
            } else {
                0usize
            }
        },
        |_h: usize| (0u32, 0u32),
        |_h: usize| false,
        |_h: usize| {},
    );
    assert_eq!(backend.get_proc_address("glClear"), 0x1234);
    assert_eq!(backend.get_proc_address("glNoSuchSymbol"), 0);
}

#[test]
fn resolve_unmarshallable_name_returns_zero_without_calling_back() {
    let calls = Cell::new(0u32);
    let backend = CBackend::new(
        9,
        |_h: usize| true,
        |_h: usize, _name: Vec<u8>| {
            calls.set(calls.get() + 1);
            0x1234usize
        },
        |_h: usize| (0u32, 0u32),
        |_h: usize| false,
        |_h: usize| {},
    );
    assert_eq!(backend.get_proc_address("bad\0name"), 0);
    assert_eq!(calls.get(), 0);
}

#[test]
fn dimensions_are_passed_through_unchanged() {
    let backend = CBackend::new(
        5,
        |_h: usize| true,
        |_h: usize, _name: Vec<u8>| 0usize,
        |h: usize| {
            assert_eq!(h, 5);
            (1920u32, 1080u32)
        },
        |_h: usize| false,
        |_h: usize| {},
    );
    assert_eq!(backend.get_framebuffer_dimensions(), (1920, 1080));
}

#[test]
fn is_current_reflects_the_callback_with_no_caching() {
    let current = Cell::new(false);
    let backend = CBackend::new(
        1,
        |_h: usize| true,
        |_h: usize, _name: Vec<u8>| 0usize,
        |_h: usize| (0u32, 0u32),
        |_h: usize| current.get(),
        |_h: usize| {},
    );
    assert!(!backend.is_current());
    current.set(true);
    assert!(backend.is_current());
    current.set(false);
    assert!(!backend.is_current());
}

#[test]
fn make_current_invokes_the_callback_once_per_call_in_order() {
    let events: RefCell<Vec<&str>> = RefCell::new(Vec::new());
    let backend = CBackend::new(
        1,
        |_h: usize| {
            events.borrow_mut().push("swap");
            true
        },
        |_h: usize, _name: Vec<u8>| 0usize,
        |_h: usize| (0u32, 0u32),
        |_h: usize| false,
        |_h: usize| {
            events.borrow_mut().push("make_current");
        },
    );
    backend.make_current();
    let _ = backend.swap_buffers();
    backend.make_current();
    backend.make_current();
    assert_eq!(
        *events.borrow(),
        vec!["make_current", "swap", "make_current", "make_current"]
    );
}

#[test]
fn end_to_end_fake_context() {
    let current = Cell::new(false);
    let backend = CBackend::new(
        0xDEAD,
        |_h: usize| true,
        |_h: usize, _name: Vec<u8>| 0usize,
        |_h: usize| (800u32, 600u32),
        |_h: usize| current.get(),
        |_h: usize| current.set(true),
    );
    assert!(!backend.is_current());
    backend.make_current();
    assert!(backend.is_current());
    assert_eq!(backend.get_framebuffer_dimensions(), (800, 600));
    assert_eq!(backend.swap_buffers(), Ok(()));
    assert_eq!(backend.swap_buffers(), Ok(()));
    assert_eq!(backend.swap_buffers(), Ok(()));
}
