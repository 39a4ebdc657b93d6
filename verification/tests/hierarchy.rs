use sdl_layer::color::Color;
use sdl_layer::geo::{Line, Point, Size};
use sdl_layer::native::{Fatal, NativeCall, ALPHA_OPAQUE, FIRST_FITTING_DRIVER, INIT_VIDEO};
use sdl_layer::sdl::Sdl;
use sdl_layer::video::renderer::pen::Pen;
use sdl_layer::video::renderer::Renderer;
use sdl_layer::video::window::state::{WindowFlag, WindowState, WINDOW_FLAGS_KNOWN};
use sdl_layer::video::window::Window;
use sdl_layer::video::Video;

const WINDOW_ADDR: usize = 0x7f00_1000;
const RENDERER_ADDR: usize = 0x7f00_2000;

fn presents(call: &NativeCall) -> bool {
    matches!(call, NativeCall::RenderPresent { .. })
}

#[test]
fn root_handle_comes_from_a_zero_status() {
    assert_eq!(Sdl::init_call(), NativeCall::Init { flags: 0 });
    assert!(Sdl::new(0).is_ok());
    assert_eq!(Sdl::new(-1).err(), Some(Fatal::Sdl));
    assert_eq!(Sdl::new(1).err(), Some(Fatal::Sdl));
    assert_eq!(Sdl::new(0).unwrap().release(), NativeCall::Quit);
}

#[test]
fn video_handle_comes_from_a_zero_status() {
    let sdl = Sdl::new(0).unwrap();
    assert_eq!(INIT_VIDEO, 0x20);
    assert_eq!(Video::init_call(), NativeCall::InitSubSystem { flags: 0x20 });
    assert!(Video::new(&sdl, 0).is_ok());
    assert_eq!(Video::new(&sdl, -1).err(), Some(Fatal::Video));
    assert_eq!(Video::new(&sdl, 7).err(), Some(Fatal::Video));
}

#[test]
fn video_teardown_matches_its_constructor() {
    let sdl = Sdl::new(0).unwrap();
    let video = Video::new(&sdl, 0).unwrap();
    assert_eq!(video.release(), NativeCall::QuitSubSystem { flags: 0x20 });
    assert_eq!(sdl.release(), NativeCall::Quit);
}

#[test]
fn window_needs_a_live_video_handle() {
    let sdl = Sdl::new(0).unwrap();
    let video = Video::new(&sdl, 0).unwrap();
    assert_eq!(Window::from_id_call(42), NativeCall::GetWindowFromId { id: 42 });
    let window = Window::from_id(WINDOW_ADDR, &video).unwrap();
    assert_eq!(window.as_ptr(), WINDOW_ADDR);
    assert_eq!(window.release(), NativeCall::DestroyWindow { window: WINDOW_ADDR });
    assert_eq!(video.release(), NativeCall::QuitSubSystem { flags: INIT_VIDEO });
}

#[test]
fn null_address_is_no_window() {
    let sdl = Sdl::new(0).unwrap();
    let video = Video::new(&sdl, 0).unwrap();
    assert!(Window::from_id(0, &video).is_none());
    assert!(Window::grabbed(0, &video).is_none());
    assert_eq!(Window::grabbed_call(), NativeCall::GetGrabbedWindow);
    assert_eq!(Window::grabbed(WINDOW_ADDR, &video).unwrap().as_ptr(), WINDOW_ADDR);
}

#[test]
fn window_queries_name_the_window() {
    let sdl = Sdl::new(0).unwrap();
    let video = Video::new(&sdl, 0).unwrap();
    let window = Window::from_id(WINDOW_ADDR, &video).unwrap();
    assert_eq!(window.state_call(), NativeCall::GetWindowFlags { window: WINDOW_ADDR });
    assert_eq!(window.display_call(), NativeCall::GetWindowDisplayIndex { window: WINDOW_ADDR });
    assert_eq!(window.id_call(), NativeCall::GetWindowId { window: WINDOW_ADDR });
    assert_eq!(window.pixel_format_call(), NativeCall::GetWindowPixelFormat { window: WINDOW_ADDR });
}

#[test]
fn negative_display_index_is_no_display() {
    let sdl = Sdl::new(0).unwrap();
    let video = Video::new(&sdl, 0).unwrap();
    let window = Window::from_id(WINDOW_ADDR, &video).unwrap();
    assert!(window.display(-1).is_none());
    assert!(window.display(i32::MIN).is_none());
    assert_eq!(window.display(0).unwrap().index(), 0);
    assert_eq!(window.display(3).unwrap().index(), 3);
}

#[test]
fn window_state_keeps_the_named_flags() {
    let sdl = Sdl::new(0).unwrap();
    let video = Video::new(&sdl, 0).unwrap();
    let window = Window::from_id(WINDOW_ADDR, &video).unwrap();
    let state = window.state(0x0000_0224);
    assert_eq!(state.bits(), 0x0000_0224);
    assert!(state.contains(WindowFlag::Shown));
    assert!(state.contains(WindowFlag::Resizable));
    assert!(state.contains(WindowFlag::InputFocus));
    assert!(!state.contains(WindowFlag::Hidden));
    assert!(!state.contains(WindowFlag::Fullscreen));
    assert_eq!(state, WindowState::from_bits_truncate(0x0000_0224));
}

#[test]
fn window_state_drops_unknown_bits() {
    assert_eq!(WINDOW_FLAGS_KNOWN, 0x3000_7fff);
    assert_eq!(WindowState::from_bits_truncate(u32::MAX).bits(), 0x3000_7fff);
    assert_eq!(WindowState::from_bits_truncate(0x0001_8000).bits(), 0);
    assert_eq!(WindowState::from_bits_truncate(0x4010_8004).bits(), 0x0000_0004);
    assert_eq!(WindowState::from_bits_truncate(0).bits(), 0);
}

#[test]
fn desktop_fullscreen_takes_both_its_bits() {
    let desktop = WindowState::from_bits_truncate(0x1001);
    assert!(desktop.contains(WindowFlag::FullscreenDesktop));
    assert!(desktop.contains(WindowFlag::Fullscreen));
    let plain = WindowState::from_bits_truncate(0x0001);
    assert!(plain.contains(WindowFlag::Fullscreen));
    assert!(!plain.contains(WindowFlag::FullscreenDesktop));
    let half = WindowState::from_bits_truncate(0x1000);
    assert!(!half.contains(WindowFlag::Fullscreen));
    assert!(!half.contains(WindowFlag::FullscreenDesktop));
}

#[test]
fn every_flag_has_its_native_bits() {
    let table = [
        (WindowFlag::Fullscreen, 0x0000_0001u32),
        (WindowFlag::OpenGl, 0x0000_0002),
        (WindowFlag::Shown, 0x0000_0004),
        (WindowFlag::Hidden, 0x0000_0008),
        (WindowFlag::Borderless, 0x0000_0010),
        (WindowFlag::Resizable, 0x0000_0020),
        (WindowFlag::Minimized, 0x0000_0040),
        (WindowFlag::Maximized, 0x0000_0080),
        (WindowFlag::InputGrabbed, 0x0000_0100),
        (WindowFlag::InputFocus, 0x0000_0200),
        (WindowFlag::MouseFocus, 0x0000_0400),
        (WindowFlag::Foreign, 0x0000_0800),
        (WindowFlag::FullscreenDesktop, 0x0000_1001),
        (WindowFlag::AllowHighDpi, 0x0000_2000),
        (WindowFlag::MouseCapture, 0x0000_4000),
        (WindowFlag::Vulkan, 0x1000_0000),
        (WindowFlag::Metal, 0x2000_0000),
    ];
    let mut all = 0;
    for (flag, bits) in table.iter() {
        assert_eq!(flag.bits(), *bits);
        assert!(WindowState::from_bits_truncate(*bits).contains(*flag));
        assert!(WindowState::from_bits_truncate(u32::MAX).contains(*flag));
        assert!(!WindowState::from_bits_truncate(0).contains(*flag));
        all |= bits;
    }
    assert_eq!(all, WINDOW_FLAGS_KNOWN);
}

#[test]
fn renderer_comes_from_an_address_that_is_not_null() {
    let sdl = Sdl::new(0).unwrap();
    let video = Video::new(&sdl, 0).unwrap();
    let window = Window::from_id(WINDOW_ADDR, &video).unwrap();
    assert_eq!(FIRST_FITTING_DRIVER, -1);
    assert_eq!(
        Renderer::new_call(&window),
        NativeCall::CreateRenderer { window: WINDOW_ADDR, index: -1, flags: 0 }
    );
    assert_eq!(Renderer::new(&window, 0).err(), Some(Fatal::Renderer));
    let renderer = Renderer::new(&window, RENDERER_ADDR).unwrap();
    assert_eq!(renderer.as_ptr(), RENDERER_ADDR);
    assert_eq!(renderer.release(), NativeCall::DestroyRenderer { renderer: RENDERER_ADDR });
}

#[test]
fn output_size_comes_from_a_zero_status() {
    let sdl = Sdl::new(0).unwrap();
    let video = Video::new(&sdl, 0).unwrap();
    let window = Window::from_id(WINDOW_ADDR, &video).unwrap();
    let renderer = Renderer::new(&window, RENDERER_ADDR).unwrap();
    assert_eq!(
        renderer.output_size_call(),
        NativeCall::GetRendererOutputSize { renderer: RENDERER_ADDR }
    );
    assert_eq!(renderer.output_size(0, 640, 480), Ok(Size { width: 640, height: 480 }));
    assert_eq!(renderer.output_size(0, 0, 0), Ok(Size { width: 0, height: 0 }));
    assert_eq!(renderer.output_size(-1, 640, 480), Err(Fatal::OutputSize));
    assert_eq!(renderer.output_size(2, 0, 0), Err(Fatal::OutputSize));
    assert_eq!(renderer.output_size(0, -1, 1), Ok(Size { width: u32::MAX, height: 1 }));
}

#[test]
fn drawing_session_ends_with_exactly_one_present() {
    let sdl = Sdl::new(0).unwrap();
    let video = Video::new(&sdl, 0).unwrap();
    let window = Window::from_id(WINDOW_ADDR, &video).unwrap();
    let renderer = Renderer::new(&window, RENDERER_ADDR).unwrap();
    let pen = Pen::new(&renderer);
    let mut issued = Vec::new();
    issued.push(pen.set_color(Color { r: 10, g: 20, b: 30 }));
    issued.push(pen.clear());
    issued.push(pen.line(Line { start: Point { x: 1, y: 2 }, end: Point { x: 3, y: 4 } }));
    issued.push(pen.release());
    assert_eq!(
        issued,
        vec![
            NativeCall::SetRenderDrawColor { renderer: RENDERER_ADDR, r: 10, g: 20, b: 30, a: 255 },
            NativeCall::RenderClear { renderer: RENDERER_ADDR },
            NativeCall::RenderDrawLine { renderer: RENDERER_ADDR, x1: 1, y1: 2, x2: 3, y2: 4 },
            NativeCall::RenderPresent { renderer: RENDERER_ADDR },
        ]
    );
    assert_eq!(issued.iter().filter(|call| presents(call)).count(), 1);
    assert!(presents(issued.last().unwrap()));
}

#[test]
fn handles_are_released_from_the_pen_up() {
    let sdl = Sdl::new(0).unwrap();
    let video = Video::new(&sdl, 0).unwrap();
    let window = Window::from_id(WINDOW_ADDR, &video).unwrap();
    let renderer = Renderer::new(&window, RENDERER_ADDR).unwrap();
    let pen = Pen::new(&renderer);
    let teardown = vec![
        pen.release(),
        renderer.release(),
        window.release(),
        video.release(),
        sdl.release(),
    ];
    assert_eq!(
        teardown,
        vec![
            NativeCall::RenderPresent { renderer: RENDERER_ADDR },
            NativeCall::DestroyRenderer { renderer: RENDERER_ADDR },
            NativeCall::DestroyWindow { window: WINDOW_ADDR },
            NativeCall::QuitSubSystem { flags: INIT_VIDEO },
            NativeCall::Quit,
        ]
    );
}

#[test]
fn pen_draws_on_its_renderer() {
    let sdl = Sdl::new(0).unwrap();
    let video = Video::new(&sdl, 0).unwrap();
    let window = Window::from_id(WINDOW_ADDR, &video).unwrap();
    let renderer = Renderer::new(&window, RENDERER_ADDR).unwrap();
    let pen = Pen::new(&renderer);
    assert_eq!(ALPHA_OPAQUE, 255);
    assert_eq!(
        pen.set_color(Color { r: 255, g: 0, b: 128 }),
        NativeCall::SetRenderDrawColor { renderer: RENDERER_ADDR, r: 255, g: 0, b: 128, a: 255 }
    );
    assert_eq!(
        pen.point(Point { x: -4, y: 9 }),
        NativeCall::RenderDrawPoint { renderer: RENDERER_ADDR, x: -4, y: 9 }
    );
    assert_eq!(
        pen.line(Line { start: Point { x: 9, y: 8 }, end: Point { x: -7, y: -6 } }),
        NativeCall::RenderDrawLine { renderer: RENDERER_ADDR, x1: 9, y1: 8, x2: -7, y2: -6 }
    );
    let path = vec![Point { x: 0, y: 0 }, Point { x: 5, y: 0 }, Point { x: 5, y: 5 }];
    assert_eq!(
        pen.lines(path.clone()),
        NativeCall::RenderDrawLines { renderer: RENDERER_ADDR, points: path.clone() }
    );
    assert_eq!(
        pen.points(path.clone()),
        NativeCall::RenderDrawPoints { renderer: RENDERER_ADDR, points: path }
    );
    assert_eq!(
        pen.lines(Vec::new()),
        NativeCall::RenderDrawLines { renderer: RENDERER_ADDR, points: Vec::new() }
    );
}

#[test]
fn two_pens_on_one_renderer_each_present_once() {
    let sdl = Sdl::new(0).unwrap();
    let video = Video::new(&sdl, 0).unwrap();
    let window = Window::from_id(WINDOW_ADDR, &video).unwrap();
    let renderer = Renderer::new(&window, RENDERER_ADDR).unwrap();
    let first = Pen::new(&renderer);
    assert!(presents(&first.release()));
    let second = Pen::new(&renderer);
    assert!(!presents(&second.clear()));
    assert!(presents(&second.release()));
}

#[test]
fn zero_status_settles_every_call() {
    assert_eq!(NativeCall::RenderClear { renderer: RENDERER_ADDR }.settle(0), Ok(()));
    assert_eq!(NativeCall::Init { flags: 0 }.settle(0), Ok(()));
    assert_eq!(NativeCall::Quit.settle(0), Ok(()));
}

#[test]
fn other_status_is_the_fatal_failure_of_the_step() {
    let r = RENDERER_ADDR;
    assert_eq!(NativeCall::Init { flags: 0 }.settle(-1), Err(Fatal::Sdl));
    assert_eq!(NativeCall::InitSubSystem { flags: INIT_VIDEO }.settle(-1), Err(Fatal::Video));
    assert_eq!(
        NativeCall::GetRendererOutputSize { renderer: r }.settle(-1),
        Err(Fatal::OutputSize)
    );
    assert_eq!(
        NativeCall::SetRenderDrawColor { renderer: r, r: 0, g: 0, b: 0, a: 255 }.settle(-1),
        Err(Fatal::PenColor)
    );
    assert_eq!(NativeCall::RenderClear { renderer: r }.settle(1), Err(Fatal::PenClear));
    assert_eq!(
        NativeCall::RenderDrawLine { renderer: r, x1: 0, y1: 0, x2: 1, y2: 1 }.settle(-1),
        Err(Fatal::PenLine)
    );
    assert_eq!(
        NativeCall::RenderDrawLines { renderer: r, points: Vec::new() }.settle(-1),
        Err(Fatal::PenLines)
    );
    assert_eq!(
        NativeCall::RenderDrawPoint { renderer: r, x: 0, y: 0 }.settle(i32::MIN),
        Err(Fatal::PenPoint)
    );
    assert_eq!(
        NativeCall::RenderDrawPoints { renderer: r, points: Vec::new() }.settle(-1),
        Err(Fatal::PenPoints)
    );
}

#[test]
fn calls_without_a_status_never_fail() {
    let r = RENDERER_ADDR;
    assert_eq!(NativeCall::RenderPresent { renderer: r }.settle(-1), Ok(()));
    assert_eq!(NativeCall::DestroyRenderer { renderer: r }.settle(-1), Ok(()));
    assert_eq!(NativeCall::DestroyWindow { window: WINDOW_ADDR }.settle(5), Ok(()));
    assert_eq!(NativeCall::Quit.settle(5), Ok(()));
    assert_eq!(NativeCall::GetWindowFromId { id: 1 }.settle(5), Ok(()));
}

#[test]
fn failure_contexts_name_the_step() {
    assert_eq!(Fatal::Sdl.context(), "Sdl");
    assert_eq!(Fatal::Video.context(), "Sdl video");
    assert_eq!(Fatal::Renderer.context(), "Sdl renderer");
    assert_eq!(Fatal::OutputSize.context(), "Sdl renderer output size");
    assert_eq!(Fatal::PenColor.context(), "Sdl pen color");
    assert_eq!(Fatal::PenClear.context(), "Sdl pen clear");
    assert_eq!(Fatal::PenLine.context(), "Sdl pen line");
    assert_eq!(Fatal::PenLines.context(), "Sdl pen lines");
    assert_eq!(Fatal::PenPoint.context(), "Sdl pen point");
    assert_eq!(Fatal::PenPoints.context(), "Sdl pen points");
}

#[test]
fn failure_report_puts_the_native_words_after_the_step() {
    assert_eq!(
        Fatal::Video.report("No available video device"),
        "Sdl video error: No available video device"
    );
    assert_eq!(Fatal::PenLine.report(""), "Sdl pen line error: ");
    assert_eq!(
        Fatal::OutputSize.report("Invalid renderer"),
        "Sdl renderer output size error: Invalid renderer"
    );
}

#[test]
fn drawing_failure_is_settled_from_the_call() {
    let sdl = Sdl::new(0).unwrap();
    let video = Video::new(&sdl, 0).unwrap();
    let window = Window::from_id(WINDOW_ADDR, &video).unwrap();
    let renderer = Renderer::new(&window, RENDERER_ADDR).unwrap();
    let pen = Pen::new(&renderer);
    let call = pen.line(Line { start: Point { x: 0, y: 0 }, end: Point { x: 1, y: 1 } });
    assert_eq!(call.settle(0), Ok(()));
    assert_eq!(call.settle(-1), Err(Fatal::PenLine));
    assert_eq!(pen.clear().settle(-1), Err(Fatal::PenClear));
    assert_eq!(pen.release().settle(-1), Ok(()));
}
