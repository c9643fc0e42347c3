//! Which devices input is injected through.

use std::collections::BTreeMap;
use vstd::prelude::*;
use crate::input::{
    no_keys, Injection, InnerView, InputBackend, InputCapabilities, InputRuntime, RuntimeView,
};
use crate::text::{concat2, concat3, same_text};
use crate::warp::WarpDetector;

verus! {

/// Devices that can be opened.
#[derive(Clone, Copy, Debug, PartialEq, Eq, Structural)]
pub enum InputProbe {
    X11,
    /// A remote-desktop session of the portal that is already running.
    Portal,
    Uinput,
}

/// What came of opening devices so far; `None` for those that were not tried.
#[derive(Debug)]
pub struct ProbeResults {
    pub x11: Option<Result<(), String>>,
    /// Whether there is a session.
    pub portal: Option<bool>,
    /// Whether the device has absolute axes.
    pub uinput: Option<Result<bool, String>>,
}

/// Devices that were chosen.
#[derive(Clone, Copy, Debug, PartialEq, Eq)]
pub struct SelectedInput {
    pub backend: InputBackend,
    pub capabilities: InputCapabilities,
    pub label: &'static str,
    /// The size of the stream, which a session of the portal is told before it is used.
    pub logical_size: Option<(u32, u32)>,
}

/// What to do next to find input devices.
#[derive(Debug)]
pub enum LinuxInputStep {
    Open(InputProbe),
    Use(SelectedInput),
    Fail(String),
}

/// The same as a value of mathematics.
pub ghost enum LinuxInputStepView {
    Open(InputProbe),
    Use {
        backend: InputBackend,
        capabilities: InputCapabilities,
        label: Seq<char>,
        logical_size: Option<(u32, u32)>,
    },
    Fail(Seq<char>),
}

impl View for LinuxInputStep {
    type V = LinuxInputStepView;

    open spec fn view(&self) -> LinuxInputStepView {
        match self {
            LinuxInputStep::Open(p) => LinuxInputStepView::Open(*p),
            LinuxInputStep::Use(s) => LinuxInputStepView::Use {
                backend: s.backend,
                capabilities: s.capabilities,
                label: s.label@,
                logical_size: s.logical_size,
            },
            LinuxInputStep::Fail(e) => LinuxInputStepView::Fail(e@),
        }
    }
}

/// What devices on Linux can do. All of them move by distances and type keys; none types
/// text.
pub open spec fn linux_capabilities(absolute: bool, cursor: bool, hover: bool, reliable: bool) -> InputCapabilities {
    InputCapabilities {
        mouse_absolute: absolute,
        mouse_relative: true,
        keyboard: true,
        separate_cursor: cursor,
        hover_capture: hover,
        cursor_position_reliable: reliable,
        text_input: false,
    }
}

fn capable(absolute: bool, cursor: bool, hover: bool, reliable: bool) -> (out: InputCapabilities)
    ensures
        out == linux_capabilities(absolute, cursor, hover, reliable),
{
    InputCapabilities {
        mouse_absolute: absolute,
        mouse_relative: true,
        keyboard: true,
        separate_cursor: cursor,
        hover_capture: hover,
        cursor_position_reliable: reliable,
        text_input: false,
    }
}

/// The choice of the kernel's virtual devices, used by distances alone.
pub open spec fn relative_choice(cursor: bool, reliable: bool) -> LinuxInputStepView {
    LinuxInputStepView::Use {
        backend: InputBackend::Uinput,
        capabilities: linux_capabilities(false, cursor, false, reliable),
        label: "uinput(rel)"@,
        logical_size: None,
    }
}

/// The choice of the kernel's virtual devices, with absolute axes where they have them.
pub open spec fn pointer_choice(absolute: bool, reliable: bool) -> LinuxInputStepView {
    LinuxInputStepView::Use {
        backend: InputBackend::Uinput,
        capabilities: linux_capabilities(absolute, true, absolute, reliable),
        label: if absolute {
            "uinput(abs+rel)"@
        } else {
            "uinput(rel)"@
        },
        logical_size: None,
    }
}

/// The choice of the X11 display.
pub open spec fn x11_choice(cursor: bool) -> LinuxInputStepView {
    LinuxInputStepView::Use {
        backend: InputBackend::X11,
        capabilities: linux_capabilities(true, cursor, true, cursor),
        label: "x11/xtest"@,
        logical_size: None,
    }
}

/// What to do for a capture of an X11 screen, with or without a cursor of its own: the
/// display first, then the kernel's devices.
pub open spec fn x11_step(cursor: bool, tried: ProbeResults) -> LinuxInputStepView {
    match tried.x11 {
        None => LinuxInputStepView::Open(InputProbe::X11),
        Some(Ok(_)) => x11_choice(cursor),
        Some(Err(x11)) => match tried.uinput {
            None => LinuxInputStepView::Open(InputProbe::Uinput),
            Some(Ok(_)) => relative_choice(cursor, cursor),
            Some(Err(uinput)) => LinuxInputStepView::Fail(
                "x11="@ + x11@ + ("; uinput="@ + uinput@),
            ),
        },
    }
}

/// What to do with the kernel's devices alone.
pub open spec fn uinput_step(tried: ProbeResults, choice: spec_fn(bool) -> LinuxInputStepView) -> LinuxInputStepView {
    match tried.uinput {
        None => LinuxInputStepView::Open(InputProbe::Uinput),
        Some(Ok(absolute)) => choice(absolute),
        Some(Err(e)) => LinuxInputStepView::Fail(e@),
    }
}

/// What to do next for a capture of a stream of this size.
pub open spec fn linux_input_step(
    capture: Seq<char>,
    width: u32,
    height: u32,
    tried: ProbeResults,
) -> LinuxInputStepView {
    if capture == "x11"@ {
        x11_step(true, tried)
    } else if capture == "nvfbc"@ {
        x11_step(false, tried)
    } else if capture == "wayland-screencopy"@ || capture == "ext-image-copy"@ {
        uinput_step(tried, |absolute: bool| relative_choice(false, false))
    } else if capture == "pipewire"@ {
        match tried.portal {
            None => LinuxInputStepView::Open(InputProbe::Portal),
            Some(true) => LinuxInputStepView::Use {
                backend: InputBackend::PortalRemoteDesktop,
                capabilities: linux_capabilities(true, true, true, true),
                label: "portal/remote-desktop"@,
                logical_size: Some((width, height)),
            },
            Some(false) => uinput_step(tried, |absolute: bool| pointer_choice(absolute, true)),
        }
    } else if capture == "kms"@ {
        uinput_step(tried, |absolute: bool| pointer_choice(absolute, false))
    } else {
        LinuxInputStepView::Fail("unsupported capture backend '"@ + capture + "'"@)
    }
}

/// Decides what to do next to find the input devices for a capture.
pub fn select_linux_backend(
    capture_backend: &str,
    stream_width: u32,
    stream_height: u32,
    tried: &ProbeResults,
) -> (step: LinuxInputStep)
    ensures
        step@ == linux_input_step(capture_backend@, stream_width, stream_height, *tried),
{
    if same_text(capture_backend, "x11") {
        select_x11(true, tried)
    } else if same_text(capture_backend, "nvfbc") {
        select_x11(false, tried)
    } else if same_text(capture_backend, "wayland-screencopy") || same_text(
        capture_backend,
        "ext-image-copy",
    ) {
        match &tried.uinput {
            None => LinuxInputStep::Open(InputProbe::Uinput),
            Some(Ok(_)) => relative_uinput(false, false),
            Some(Err(e)) => LinuxInputStep::Fail(e.clone()),
        }
    } else if same_text(capture_backend, "pipewire") {
        match tried.portal {
            None => LinuxInputStep::Open(InputProbe::Portal),
            Some(true) => LinuxInputStep::Use(
                SelectedInput {
                    backend: InputBackend::PortalRemoteDesktop,
                    capabilities: capable(true, true, true, true),
                    label: "portal/remote-desktop",
                    logical_size: Some((stream_width, stream_height)),
                },
            ),
            Some(false) => pointer_uinput(tried, true),
        }
    } else if same_text(capture_backend, "kms") {
        pointer_uinput(tried, false)
    } else {
        LinuxInputStep::Fail(concat3("unsupported capture backend '", capture_backend, "'"))
    }
}

fn relative_uinput(cursor: bool, reliable: bool) -> (step: LinuxInputStep)
    ensures
        step@ == relative_choice(cursor, reliable),
{
    LinuxInputStep::Use(
        SelectedInput {
            backend: InputBackend::Uinput,
            capabilities: capable(false, cursor, false, reliable),
            label: "uinput(rel)",
            logical_size: None,
        },
    )
}

fn pointer_uinput(tried: &ProbeResults, reliable: bool) -> (step: LinuxInputStep)
    ensures
        step@ == uinput_step(*tried, |absolute: bool| pointer_choice(absolute, reliable)),
{
    match &tried.uinput {
        None => LinuxInputStep::Open(InputProbe::Uinput),
        Some(Ok(absolute)) => LinuxInputStep::Use(
            SelectedInput {
                backend: InputBackend::Uinput,
                capabilities: capable(*absolute, true, *absolute, reliable),
                label: if *absolute {
                    "uinput(abs+rel)"
                } else {
                    "uinput(rel)"
                },
                logical_size: None,
            },
        ),
        Some(Err(e)) => LinuxInputStep::Fail(e.clone()),
    }
}

fn select_x11(cursor: bool, tried: &ProbeResults) -> (step: LinuxInputStep)
    ensures
        step@ == x11_step(cursor, *tried),
{
    match &tried.x11 {
        None => LinuxInputStep::Open(InputProbe::X11),
        Some(Ok(_)) => LinuxInputStep::Use(
            SelectedInput {
                backend: InputBackend::X11,
                capabilities: capable(true, cursor, true, cursor),
                label: "x11/xtest",
                logical_size: None,
            },
        ),
        Some(Err(x11)) => match &tried.uinput {
            None => LinuxInputStep::Open(InputProbe::Uinput),
            Some(Ok(_)) => relative_uinput(cursor, cursor),
            Some(Err(uinput)) => {
                let first = concat2("x11=", x11.as_str());
                let second = concat2("; uinput=", uinput.as_str());
                LinuxInputStep::Fail(concat2(first.as_str(), second.as_str()))
            },
        },
    }
}

/// Looking for devices comes to an end: what is opened next was not tried before.
pub proof fn nothing_is_opened_twice(
    capture: Seq<char>,
    width: u32,
    height: u32,
    tried: ProbeResults,
)
    ensures
        linux_input_step(capture, width, height, tried) matches LinuxInputStepView::Open(p)
            ==> match p {
            InputProbe::X11 => tried.x11 is None,
            InputProbe::Portal => tried.portal is None,
            InputProbe::Uinput => tried.uinput is None,
        },
{
}

/// The devices of macOS and of Windows, which can do everything.
pub open spec fn full_capabilities() -> InputCapabilities {
    InputCapabilities {
        mouse_absolute: true,
        mouse_relative: true,
        keyboard: true,
        separate_cursor: true,
        hover_capture: true,
        cursor_position_reliable: true,
        text_input: true,
    }
}

fn all_capabilities() -> (out: InputCapabilities)
    ensures
        out == full_capabilities(),
{
    InputCapabilities {
        mouse_absolute: true,
        mouse_relative: true,
        keyboard: true,
        separate_cursor: true,
        hover_capture: true,
        cursor_position_reliable: true,
        text_input: true,
    }
}

/// The devices of macOS.
pub fn macos_input() -> (out: SelectedInput)
    ensures
        out.backend == InputBackend::Macos,
        out.capabilities == full_capabilities(),
        out.label@ == "macos/quartz"@,
        out.logical_size is None,
{
    SelectedInput {
        backend: InputBackend::Macos,
        capabilities: all_capabilities(),
        label: "macos/quartz",
        logical_size: None,
    }
}

/// The devices of Windows.
pub fn windows_input() -> (out: SelectedInput)
    ensures
        out.backend == InputBackend::Windows,
        out.capabilities == full_capabilities(),
        out.label@ == "windows/sendinput"@,
        out.logical_size is None,
{
    SelectedInput {
        backend: InputBackend::Windows,
        capabilities: all_capabilities(),
        label: "windows/sendinput",
        logical_size: None,
    }
}

impl InnerView {
    /// With nobody in control, nothing held, no cursor and no memory of earlier packets.
    pub open spec fn cleared(self, width: u32, height: u32) -> InnerView {
        InnerView {
            controller_id: None,
            last_seq: Map::empty(),
            button_mask: 0,
            keyboard: no_keys(),
            warp: WarpDetector::fresh(self.warp.enabled),
            stream_width: width,
            stream_height: height,
            ..self.without_cursor()
        }
    }

    /// With other devices, or with none and the reason for it.
    pub open spec fn with_devices(self, next: Result<SelectedInput, String>) -> InnerView {
        match next {
            Ok(s) => InnerView {
                backend: s.backend,
                backend_label: s.label@,
                capabilities: s.capabilities,
                ..self
            },
            Err(e) => InnerView {
                backend: InputBackend::Unavailable,
                backend_label: "unavailable ("@ + e@ + ")"@,
                capabilities: InputCapabilities::nothing(),
                ..self
            },
        }
    }

    /// Without devices.
    pub open spec fn without_devices(self) -> InnerView {
        InnerView {
            backend: InputBackend::Unavailable,
            backend_label: "unavailable"@,
            capabilities: InputCapabilities::nothing(),
            ..self
        }
    }
}

impl InputRuntime {
    /// Lets go of everything ahead of a change of devices. What it gives is for the
    /// devices of before.
    pub fn refresh_backend(&mut self, stream_width: u32, stream_height: u32) -> (out: Vec<Injection>)
        requires
            old(self).wf(),
        ensures
            final(self).wf(),
            out@ == old(self)@.inner.release_out(),
            final(self)@ == old(self)@.with_inner(
                old(self)@.inner.cleared(stream_width, stream_height),
            ),
    {
        let mut out: Vec<Injection> = Vec::new();
        let ghost start = self@;
        self.inner.release_all_inputs(&mut out);
        self.inner.controller_id = None;
        self.inner.last_input_seq_by_client = BTreeMap::new();
        self.inner.forget_cursor();
        self.inner.warp.reset();
        self.inner.stream_width = stream_width;
        self.inner.stream_height = stream_height;
        self.set_active_controller();
        proof {
            assert(out@ =~= start.inner.release_out());
            assert(self@ =~= start.with_inner(start.inner.cleared(stream_width, stream_height)));
        }
        out
    }

    /// Takes other devices into use.
    pub fn use_backend(&mut self, next: Result<SelectedInput, String>)
        requires
            old(self).wf(),
        ensures
            final(self).wf(),
            final(self)@ == (RuntimeView {
                inner: old(self)@.inner.with_devices(next),
                ..old(self)@
            }),
    {
        match &next {
            Ok(selected) => {
                self.inner.backend = selected.backend;
                self.inner.backend_label = selected.label.to_owned();
                self.inner.capabilities = selected.capabilities;
            },
            Err(e) => {
                self.inner.backend = InputBackend::Unavailable;
                self.inner.backend_label = concat3("unavailable (", e.as_str(), ")");
                self.inner.capabilities = InputCapabilities::none();
            },
        }
    }

    /// Lets go of everything and of the devices, for a stop.
    pub fn clear_for_stop(&mut self) -> (out: Vec<Injection>)
        requires
            old(self).wf(),
        ensures
            final(self).wf(),
            out@ == old(self)@.inner.release_out(),
            final(self)@ == old(self)@.with_inner(
                old(self)@.inner.cleared(0, 0).without_devices(),
            ),
    {
        let out = self.refresh_backend(0, 0);
        self.inner.backend = InputBackend::Unavailable;
        self.inner.backend_label = "unavailable".to_owned();
        self.inner.capabilities = InputCapabilities::none();
        out
    }
}

} // verus!
