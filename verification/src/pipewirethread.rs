//! The capture pipeline: the formats it offers to the media graph, the
//! layout of its frame buffers, and what the worker does on each callback
//! of the graph.

use vstd::prelude::*;
use vstd::string::StringExecFns;

verus! {

/// Bytes per pixel of every frame.
pub const BYTES_PER_PIXEL: u32 = 4;

/// A pixel format as the media graph names it.
#[allow(non_camel_case_types)]
#[derive(Clone, Copy, Debug, PartialEq, Eq, Structural)]
pub enum VideoFormat {
    BGRA,
    BGRx,
    ABGR,
    xBGR,
    RGBA,
    RGBx,
    ARGB,
    xRGB,
    xRGB_210LE,
    xBGR_210LE,
    RGBx_102LE,
    BGRx_102LE,
    ARGB_210LE,
    ABGR_210LE,
    RGBA_102LE,
    BGRA_102LE,
    /// Any format that the compositor cannot fill.
    Other,
}

/// A pixel format as the compositor names it.
#[derive(Clone, Copy, Debug, PartialEq, Eq, Structural)]
pub enum Format {
    Argb8888,
    Xrgb8888,
    Rgba8888,
    Rgbx8888,
    Abgr8888,
    Xbgr8888,
    Bgra8888,
    Bgrx8888,
    Xrgb2101010,
    Xbgr2101010,
    Rgbx1010102,
    Bgrx1010102,
    Argb2101010,
    Abgr2101010,
    Rgba1010102,
    Bgra1010102,
    /// Any format that the media graph cannot carry.
    Other,
}

/// The compositor's name for a format of the media graph.
pub open spec fn spec_to_wl_shm(format: VideoFormat) -> Option<Format> {
    match format {
        VideoFormat::BGRA => Some(Format::Argb8888),
        VideoFormat::BGRx => Some(Format::Xrgb8888),
        VideoFormat::ABGR => Some(Format::Rgba8888),
        VideoFormat::xBGR => Some(Format::Rgbx8888),
        VideoFormat::RGBA => Some(Format::Abgr8888),
        VideoFormat::RGBx => Some(Format::Xbgr8888),
        VideoFormat::ARGB => Some(Format::Bgra8888),
        VideoFormat::xRGB => Some(Format::Bgrx8888),
        VideoFormat::xRGB_210LE => Some(Format::Xrgb2101010),
        VideoFormat::xBGR_210LE => Some(Format::Xbgr2101010),
        VideoFormat::RGBx_102LE => Some(Format::Rgbx1010102),
        VideoFormat::BGRx_102LE => Some(Format::Bgrx1010102),
        VideoFormat::ARGB_210LE => Some(Format::Argb2101010),
        VideoFormat::ABGR_210LE => Some(Format::Abgr2101010),
        VideoFormat::RGBA_102LE => Some(Format::Rgba1010102),
        VideoFormat::BGRA_102LE => Some(Format::Bgra1010102),
        VideoFormat::Other => None,
    }
}

/// The media graph's name for a format of the compositor.
pub open spec fn spec_to_spa(format: Format) -> Option<VideoFormat> {
    match format {
        Format::Argb8888 => Some(VideoFormat::BGRA),
        Format::Xrgb8888 => Some(VideoFormat::BGRx),
        Format::Rgba8888 => Some(VideoFormat::ABGR),
        Format::Rgbx8888 => Some(VideoFormat::xBGR),
        Format::Abgr8888 => Some(VideoFormat::RGBA),
        Format::Xbgr8888 => Some(VideoFormat::RGBx),
        Format::Bgra8888 => Some(VideoFormat::ARGB),
        Format::Bgrx8888 => Some(VideoFormat::xRGB),
        Format::Xrgb2101010 => Some(VideoFormat::xRGB_210LE),
        Format::Xbgr2101010 => Some(VideoFormat::xBGR_210LE),
        Format::Rgbx1010102 => Some(VideoFormat::RGBx_102LE),
        Format::Bgrx1010102 => Some(VideoFormat::BGRx_102LE),
        Format::Argb2101010 => Some(VideoFormat::ARGB_210LE),
        Format::Abgr2101010 => Some(VideoFormat::ABGR_210LE),
        Format::Rgba1010102 => Some(VideoFormat::RGBA_102LE),
        Format::Bgra1010102 => Some(VideoFormat::BGRA_102LE),
        Format::Other => None,
    }
}

/// The compositor's name for a format of the media graph.
pub fn spa_format_to_wl_shm(format: VideoFormat) -> (named: Option<Format>)
    ensures
        named == spec_to_wl_shm(format),
{
    match format {
        VideoFormat::BGRA => Some(Format::Argb8888),
        VideoFormat::BGRx => Some(Format::Xrgb8888),
        VideoFormat::ABGR => Some(Format::Rgba8888),
        VideoFormat::xBGR => Some(Format::Rgbx8888),
        VideoFormat::RGBA => Some(Format::Abgr8888),
        VideoFormat::RGBx => Some(Format::Xbgr8888),
        VideoFormat::ARGB => Some(Format::Bgra8888),
        VideoFormat::xRGB => Some(Format::Bgrx8888),
        VideoFormat::xRGB_210LE => Some(Format::Xrgb2101010),
        VideoFormat::xBGR_210LE => Some(Format::Xbgr2101010),
        VideoFormat::RGBx_102LE => Some(Format::Rgbx1010102),
        VideoFormat::BGRx_102LE => Some(Format::Bgrx1010102),
        VideoFormat::ARGB_210LE => Some(Format::Argb2101010),
        VideoFormat::ABGR_210LE => Some(Format::Abgr2101010),
        VideoFormat::RGBA_102LE => Some(Format::Rgba1010102),
        VideoFormat::BGRA_102LE => Some(Format::Bgra1010102),
        VideoFormat::Other => None,
    }
}

/// The media graph's name for a format of the compositor.
pub fn wl_shm_format_to_spa(format: Format) -> (named: Option<VideoFormat>)
    ensures
        named == spec_to_spa(format),
{
    match format {
        Format::Argb8888 => Some(VideoFormat::BGRA),
        Format::Xrgb8888 => Some(VideoFormat::BGRx),
        Format::Rgba8888 => Some(VideoFormat::ABGR),
        Format::Rgbx8888 => Some(VideoFormat::xBGR),
        Format::Abgr8888 => Some(VideoFormat::RGBA),
        Format::Xbgr8888 => Some(VideoFormat::RGBx),
        Format::Bgra8888 => Some(VideoFormat::ARGB),
        Format::Bgrx8888 => Some(VideoFormat::xRGB),
        Format::Xrgb2101010 => Some(VideoFormat::xRGB_210LE),
        Format::Xbgr2101010 => Some(VideoFormat::xBGR_210LE),
        Format::Rgbx1010102 => Some(VideoFormat::RGBx_102LE),
        Format::Bgrx1010102 => Some(VideoFormat::BGRx_102LE),
        Format::Argb2101010 => Some(VideoFormat::ARGB_210LE),
        Format::Abgr2101010 => Some(VideoFormat::ABGR_210LE),
        Format::Rgba1010102 => Some(VideoFormat::RGBA_102LE),
        Format::Bgra1010102 => Some(VideoFormat::BGRA_102LE),
        Format::Other => None,
    }
}

/// The two namings are inverse to each other wherever one of them names
/// anything.
pub proof fn lemma_format_names_inverse(spa: VideoFormat, wl: Format)
    ensures
        spec_to_wl_shm(spa) == Some(wl) <==> spec_to_spa(wl) == Some(spa),
{
}

/// The size of a frame in pixels.
#[derive(Clone, Copy, Debug, PartialEq, Eq, Structural)]
pub struct Size {
    /// Pixels across.
    pub width: u32,
    /// Pixels down.
    pub height: u32,
}

impl Size {
    /// The bytes of one row of pixels.
    pub open spec fn spec_stride(self) -> int {
        4 * self.width
    }

    /// The bytes of one frame.
    pub open spec fn spec_bytes(self) -> int {
        4 * self.width * self.height
    }

    /// Whether the bytes of one frame can be told to the media graph,
    /// which counts them in a signed 32-bit number.
    pub open spec fn wf(self) -> bool {
        self.spec_bytes() <= i32::MAX && self.spec_stride() <= i32::MAX
    }

    /// Tests whether the bytes of one frame can be told to the media
    /// graph.
    pub fn fits(self) -> (ok: bool)
        ensures
            ok == self.wf(),
    {
        let width: u64 = self.width as u64;
        let height: u64 = self.height as u64;
        assert(width * height <= 0xffff_ffff * 0xffff_ffff) by (nonlinear_arith)
            requires
                width <= 0xffff_ffff,
                height <= 0xffff_ffff,
        ;
        assert(4 * self.width * self.height == 4 * (width * height)) by (nonlinear_arith)
            requires
                width == self.width,
                height == self.height,
        ;
        let pixels: u64 = width * height;
        pixels <= 0x1fff_ffff && width <= 0x1fff_ffff
    }

    /// The bytes of one row of pixels.
    pub fn stride(self) -> (bytes: u32)
        requires
            self.wf(),
        ensures
            bytes == self.spec_stride(),
    {
        4 * self.width
    }

    /// The bytes of one frame.
    pub fn bytes(self) -> (bytes: u32)
        requires
            self.wf(),
        ensures
            bytes == self.spec_bytes(),
    {
        assert(self.width * self.height <= 0xffff_ffff * 0xffff_ffff) by (nonlinear_arith)
            requires
                self.width <= 0xffff_ffff,
                self.height <= 0xffff_ffff,
        ;
        let wide: u64 = self.width as u64 * self.height as u64;
        assert(4 * self.width * self.height == 4 * (self.width * self.height)) by (nonlinear_arith);
        (4 * wide) as u32
    }
}

/// What the worker tells the media graph about its buffers.
#[derive(Clone, Copy, Debug, PartialEq, Eq, Structural)]
pub struct BufferParams {
    /// The bytes of one buffer.
    pub size: i32,
    /// The bytes of one row.
    pub stride: i32,
    /// The alignment of a buffer.
    pub align: i32,
    /// The blocks of a buffer.
    pub blocks: i32,
    /// How many buffers the worker would like.
    pub buffers_default: i32,
    /// The least number of buffers.
    pub buffers_min: i32,
    /// The greatest number of buffers.
    pub buffers_max: i32,
}

/// The buffer layout for frames of `width` by `height` pixels.
pub open spec fn spec_buffers(size: Size) -> BufferParams {
    BufferParams {
        size: size.spec_bytes() as i32,
        stride: size.spec_stride() as i32,
        align: 16,
        blocks: 1,
        buffers_default: 4,
        buffers_min: 1,
        buffers_max: 32,
    }
}

/// The buffer layout for frames of `width` by `height` pixels: four bytes
/// a pixel, rows without padding, one block aligned to 16, between 1 and
/// 32 buffers and 4 by preference.
pub fn buffers(width: u32, height: u32) -> (params: BufferParams)
    requires
        (Size { width, height }).wf(),
    ensures
        params == spec_buffers(Size { width, height }),
        params.size == 4 * width * height,
        params.stride == 4 * width,
{
    let size = Size { width, height };
    BufferParams {
        size: size.bytes() as i32,
        stride: size.stride() as i32,
        align: 16,
        blocks: 1,
        buffers_default: 4,
        buffers_min: 1,
        buffers_max: 32,
    }
}

/// What the worker tells the media graph about its frames.
pub struct FormatParams {
    /// Pixels across; the only width offered.
    pub width: u32,
    /// Pixels down; the only height offered.
    pub height: u32,
    /// Frames per `framerate_denom` seconds.
    pub framerate_num: u32,
    /// See `framerate_num`.
    pub framerate_denom: u32,
    /// The pixel format the worker would like.
    pub default_format: VideoFormat,
    /// The pixel formats the graph may choose from.
    pub alternatives: Vec<VideoFormat>,
}

/// The frame description for frames of `width` by `height` pixels: 60
/// frames a second, a choice among the formats that the compositor can
/// fill, BGRA by preference.
pub fn format(width: u32, height: u32, available_video_formats: Vec<VideoFormat>) -> (params:
    FormatParams)
    ensures
        params.width == width,
        params.height == height,
        params.framerate_num == 60,
        params.framerate_denom == 1,
        params.default_format == VideoFormat::BGRA,
        params.alternatives@ == available_video_formats@,
{
    FormatParams {
        width,
        height,
        framerate_num: 60,
        framerate_denom: 1,
        default_format: VideoFormat::BGRA,
        alternatives: available_video_formats,
    }
}

/// The formats of `listed` that the media graph can carry, under the
/// graph's names and in the order of `listed`.
pub open spec fn spec_carried(listed: Seq<Format>) -> Seq<VideoFormat>
    decreases listed.len(),
{
    if listed.len() == 0 {
        Seq::empty()
    } else {
        let rest = spec_carried(listed.drop_last());
        match spec_to_spa(listed.last()) {
            Some(format) => rest.push(format),
            None => rest,
        }
    }
}

/// The formats to offer to the media graph: those that the compositor
/// listed and the graph can carry; where the compositor gave no list, the
/// two that every renderer supports.
pub fn available_formats(listed: Option<Vec<Format>>) -> (offered: Vec<VideoFormat>)
    ensures
        offered@ == match listed {
            Some(list) => spec_carried(list@),
            None => seq![VideoFormat::BGRx, VideoFormat::BGRA],
        },
{
    match listed {
        Some(list) => {
            let mut offered: Vec<VideoFormat> = Vec::new();
            let mut index: usize = 0;
            while index < list.len()
                invariant
                    index <= list.len(),
                    offered@ == spec_carried(list@.take(index as int)),
                decreases list.len() - index,
            {
                proof {
                    let longer = list@.take(index as int + 1);
                    assert(longer.drop_last() =~= list@.take(index as int));
                    assert(longer.last() == list@[index as int]);
                }
                if let Some(format) = wl_shm_format_to_spa(list[index]) {
                    offered.push(format);
                }
                index = index + 1;
            }
            proof {
                assert(list@.take(index as int) =~= list@);
            }
            offered
        },
        None => vec![VideoFormat::BGRx, VideoFormat::BGRA],
    }
}

/// What is captured.
#[derive(Clone, Copy, Debug, PartialEq, Eq, Structural)]
pub enum CastTarget {
    /// The window at this place in the compositor's list of windows.
    TopLevel(usize),
    /// The monitor at this place in the compositor's list of outputs.
    Screen(usize),
}

/// A part of a monitor.
#[derive(Clone, Copy, Debug, PartialEq, Eq, Structural)]
pub struct EmbeddedRegion {
    /// The left edge.
    pub x: i32,
    /// The top edge.
    pub y: i32,
    /// Pixels across.
    pub width: u32,
    /// Pixels down.
    pub height: u32,
}

/// How an attempt to capture one frame ended.
#[derive(Clone, Copy, Debug, PartialEq, Eq, Structural)]
pub enum CaptureOutcome {
    /// The buffer holds a frame.
    Filled,
    /// The buffer does not suit the target any more: its size changed.
    BufferConstraints,
    /// The target is gone.
    Stopped,
    /// Anything else went wrong.
    Failed,
}

/// What the worker does before it captures.
#[derive(Clone, Copy, Debug, PartialEq, Eq, Structural)]
pub enum ProcessStep {
    /// The graph had no buffer: nothing to do.
    Idle,
    /// No format was negotiated yet: report it and drop the turn.
    NoFormat,
    /// Capture one frame into the buffer.
    Capture { target: CastTarget, format: Format, overlay_cursor: bool, region: Option<EmbeddedRegion> },
}

/// What the worker does after an attempt to capture.
#[derive(Clone, Copy, Debug, PartialEq, Eq, Structural)]
pub enum AfterCapture {
    /// Hand the filled buffer back to the graph.
    Queue,
    /// Probe the target anew and renegotiate; hand the buffer back empty.
    Reprobe,
    /// Deactivate the node and hand the buffer back.
    Deactivate,
    /// Report the failure and hand the buffer back.
    Report,
}

/// The state of the media graph's stream.
#[derive(Clone, Copy, Debug, PartialEq, Eq, Structural)]
pub enum StreamState {
    /// The stream failed.
    Error,
    /// The stream is not connected.
    Unconnected,
    /// The stream is connecting.
    Connecting,
    /// The stream is ready and idle.
    Paused,
    /// The stream is running.
    Streaming,
}

/// One data slot of a buffer, as the worker fills it in.
#[derive(Clone, Copy, Debug, PartialEq, Eq, Structural)]
pub struct DataSlot {
    /// Where the frame begins in the file.
    pub offset: u32,
    /// The bytes of one row.
    pub stride: u32,
    /// The bytes of the frame.
    pub chunk_size: u32,
    /// The most bytes the slot can take.
    pub max_size: u32,
}

/// How a fresh buffer gets its memory.
#[derive(Clone, Copy, Debug, PartialEq, Eq, Structural)]
pub enum BufferPlan {
    /// Allocate a DMA-BUF and fill this many data slots from its planes.
    DmaBuf { slots: u32, max_size: u32 },
    /// Create a sealed memory file of `file_len` bytes and fill the single
    /// data slot with `slot`.
    Shm { file_len: u32, slot: DataSlot },
}

/// What the capture worker remembers between the callbacks of the graph.
pub struct StreamingData {
    /// The pixel format that the graph chose, once it has.
    pub chosen_format: Option<Format>,
    /// Whether the cursor is drawn into the frames.
    pub overlay_cursor: bool,
    /// The formats offered to the graph.
    pub available_video_formats: Vec<VideoFormat>,
    /// The part of the monitor to capture, if not all of it.
    pub embedded_region: Option<EmbeddedRegion>,
    /// The size of the frames, as last probed.
    pub size: Size,
    /// What is captured.
    pub target: CastTarget,
    /// Whether the node id was handed out.
    pub node_id_sent: bool,
}

impl StreamingData {
    /// The state is usable: the frame size can be told to the graph.
    pub open spec fn wf(&self) -> bool {
        self.size.wf()
    }

    /// A worker that has negotiated nothing yet.
    pub fn new(
        width: u32,
        height: u32,
        overlay_cursor: bool,
        available_video_formats: Vec<VideoFormat>,
        embedded_region: Option<EmbeddedRegion>,
        target: CastTarget,
    ) -> (data: StreamingData)
        requires
            (Size { width, height }).wf(),
        ensures
            data.wf(),
            data.chosen_format.is_none(),
            data.overlay_cursor == overlay_cursor,
            data.available_video_formats@ == available_video_formats@,
            data.embedded_region == embedded_region,
            data.size == (Size { width, height }),
            data.target == target,
            !data.node_id_sent,
    {
        StreamingData {
            chosen_format: None,
            overlay_cursor,
            available_video_formats,
            embedded_region,
            size: Size { width, height },
            target,
            node_id_sent: false,
        }
    }

    /// The stream changed its state.  The result says whether to hand the
    /// node id to whoever started the cast: on the first change to
    /// `Paused`, and never again.
    pub fn state_changed(&mut self, new: StreamState) -> (send_node_id: bool)
        ensures
            send_node_id == (new == StreamState::Paused && !old(self).node_id_sent),
            final(self).node_id_sent == (old(self).node_id_sent || new == StreamState::Paused),
            final(self).chosen_format == old(self).chosen_format,
            final(self).size == old(self).size,
            final(self).target == old(self).target,
            final(self).overlay_cursor == old(self).overlay_cursor,
            final(self).embedded_region == old(self).embedded_region,
            final(self).available_video_formats == old(self).available_video_formats,
    {
        match new {
            StreamState::Paused => {
                let first = !self.node_id_sent;
                self.node_id_sent = true;
                first
            },
            _ => false,
        }
    }

    /// The graph changed a parameter.  `is_format` says whether it is the
    /// format parameter; `parsed` is the format that the parameter names,
    /// where there is a parameter and it could be read.  The chosen format
    /// is stored where the compositor can fill it; in every other case the
    /// worker keeps what it had.
    pub fn param_changed(&mut self, is_format: bool, parsed: Option<VideoFormat>)
        ensures
            final(self).chosen_format == match parsed {
                Some(format) if is_format && spec_to_wl_shm(format).is_some() => spec_to_wl_shm(
                    format,
                ),
                _ => old(self).chosen_format,
            },
            final(self).size == old(self).size,
            final(self).target == old(self).target,
            final(self).overlay_cursor == old(self).overlay_cursor,
            final(self).embedded_region == old(self).embedded_region,
            final(self).available_video_formats == old(self).available_video_formats,
            final(self).node_id_sent == old(self).node_id_sent,
    {
        if !is_format {
            return ;
        }
        if let Some(format) = parsed {
            if let Some(wl_shm_fmt) = spa_format_to_wl_shm(format) {
                self.chosen_format = Some(wl_shm_fmt);
            }
        }
    }

    /// How a fresh buffer gets its memory.  The DMA-BUF path is taken
    /// exactly when the compositor can allocate such buffers and the
    /// buffer allows them; it fills as many data slots as there are both
    /// planes and slots.  Otherwise the single slot is backed by a memory
    /// file that holds one frame.
    pub fn add_buffer(&self, gbm: bool, allows_dmabuf: bool, plane_count: u32, datas_len: u32) -> (plan:
        BufferPlan)
        requires
            self.wf(),
        ensures
            plan == if gbm && allows_dmabuf {
                BufferPlan::DmaBuf {
                    slots: if plane_count <= datas_len {
                        plane_count
                    } else {
                        datas_len
                    },
                    max_size: self.size.spec_bytes() as u32,
                }
            } else {
                BufferPlan::Shm {
                    file_len: self.size.spec_bytes() as u32,
                    slot: DataSlot {
                        offset: 0,
                        stride: self.size.spec_stride() as u32,
                        chunk_size: self.size.spec_bytes() as u32,
                        max_size: self.size.spec_bytes() as u32,
                    },
                }
            },
    {
        let bytes: u32 = self.size.bytes();
        if gbm && allows_dmabuf {
            let slots: u32 = if plane_count <= datas_len {
                plane_count
            } else {
                datas_len
            };
            BufferPlan::DmaBuf { slots, max_size: bytes }
        } else {
            BufferPlan::Shm {
                file_len: bytes,
                slot: DataSlot {
                    offset: 0,
                    stride: self.size.stride(),
                    chunk_size: bytes,
                    max_size: bytes,
                },
            }
        }
    }

    /// The data slot for one plane of a DMA-BUF with the given offset and
    /// stride.  There is none where the bytes of the plane, height times
    /// stride, are more than a slot can tell.
    pub fn dmabuf_slot(&self, offset: u32, stride: u32) -> (slot: Option<DataSlot>)
        requires
            self.wf(),
        ensures
            slot == if self.size.height * stride <= u32::MAX {
                Some(
                    DataSlot {
                        offset,
                        stride,
                        chunk_size: (self.size.height * stride) as u32,
                        max_size: self.size.spec_bytes() as u32,
                    },
                )
            } else {
                None
            },
    {
        assert(self.size.height * stride <= 0xffff_ffff * 0xffff_ffff) by (nonlinear_arith)
            requires
                self.size.height <= 0xffff_ffff,
                stride <= 0xffff_ffff,
        ;
        let chunk: u64 = self.size.height as u64 * stride as u64;
        if chunk <= 0xffff_ffff {
            Some(
                DataSlot {
                    offset,
                    stride,
                    chunk_size: chunk as u32,
                    max_size: self.size.bytes(),
                },
            )
        } else {
            None
        }
    }

    /// What the worker does on a process callback before it captures.
    pub fn process(&self, has_buffer: bool) -> (step: ProcessStep)
        ensures
            step == if !has_buffer {
                ProcessStep::Idle
            } else {
                match self.chosen_format {
                    None => ProcessStep::NoFormat,
                    Some(format) => ProcessStep::Capture {
                        target: self.target,
                        format,
                        overlay_cursor: self.overlay_cursor,
                        region: self.embedded_region,
                    },
                }
            },
    {
        if !has_buffer {
            return ProcessStep::Idle;
        }
        match self.chosen_format {
            None => ProcessStep::NoFormat,
            Some(format) => ProcessStep::Capture {
                target: self.target,
                format,
                overlay_cursor: self.overlay_cursor,
                region: self.embedded_region,
            },
        }
    }

    /// What the worker does after an attempt to capture.
    pub fn after_capture(&self, outcome: CaptureOutcome) -> (next: AfterCapture)
        ensures
            next == match outcome {
                CaptureOutcome::Filled => AfterCapture::Queue,
                CaptureOutcome::BufferConstraints => AfterCapture::Reprobe,
                CaptureOutcome::Stopped => AfterCapture::Deactivate,
                CaptureOutcome::Failed => AfterCapture::Report,
            },
    {
        match outcome {
            CaptureOutcome::Filled => AfterCapture::Queue,
            CaptureOutcome::BufferConstraints => AfterCapture::Reprobe,
            CaptureOutcome::Stopped => AfterCapture::Deactivate,
            CaptureOutcome::Failed => AfterCapture::Report,
        }
    }

    /// Renegotiates after the target changed its size.  `probe` is the
    /// size that a fresh probe found, if it found one.  With a size, the
    /// worker stores it and the result is what to tell the graph: frames
    /// of that size, rows of four bytes a pixel.  Without one the worker
    /// keeps what it had and tells the graph nothing.  The format that was
    /// chosen and the formats on offer stay.
    pub fn update_params(&mut self, probe: Option<Size>) -> (params: Option<(FormatParams, BufferParams)>)
        requires
            old(self).wf(),
            probe.is_some() ==> probe.unwrap().wf(),
        ensures
            final(self).wf(),
            final(self).size == match probe {
                Some(size) => size,
                None => old(self).size,
            },
            final(self).chosen_format == old(self).chosen_format,
            final(self).target == old(self).target,
            final(self).overlay_cursor == old(self).overlay_cursor,
            final(self).embedded_region == old(self).embedded_region,
            final(self).available_video_formats@ == old(self).available_video_formats@,
            final(self).node_id_sent == old(self).node_id_sent,
            params.is_some() == probe.is_some(),
            match params {
                Some((format, buffers)) => {
                    &&& format.width == final(self).size.width
                    &&& format.height == final(self).size.height
                    &&& format.framerate_num == 60
                    &&& format.framerate_denom == 1
                    &&& format.default_format == VideoFormat::BGRA
                    &&& format.alternatives@ == old(self).available_video_formats@
                    &&& buffers == spec_buffers(final(self).size)
                    &&& buffers.stride == 4 * final(self).size.width
                    &&& buffers.size == 4 * final(self).size.width * final(self).size.height
                },
                None => true,
            },
    {
        match probe {
            None => None,
            Some(size) => {
                let offered = copy_formats(&self.available_video_formats);
                let format = format(size.width, size.height, offered);
                let buffers = buffers(size.width, size.height);
                self.size = size;
                Some((format, buffers))
            },
        }
    }
}

/// A copy of a list of formats.
pub fn copy_formats(formats: &Vec<VideoFormat>) -> (copy: Vec<VideoFormat>)
    ensures
        copy@ == formats@,
{
    let mut copy: Vec<VideoFormat> = Vec::new();
    let mut index: usize = 0;
    while index < formats.len()
        invariant
            index <= formats.len(),
            copy@ == formats@.take(index as int),
        decreases formats.len() - index,
    {
        copy.push(formats[index]);
        proof {
            assert(formats@.take(index as int).push(formats@[index as int]) =~= formats@.take(
                index as int + 1,
            ));
        }
        index = index + 1;
    }
    proof {
        assert(formats@.take(index as int) =~= formats@);
    }
    copy
}

/// What starting a stream comes to.
pub struct StreamSetup {
    /// The worker's state.
    pub data: StreamingData,
    /// The frame description to connect with.
    pub format: FormatParams,
    /// The buffer layout to connect with.
    pub buffers: BufferParams,
}

/// Prepares a stream for a target that was probed once.  `probe` is the
/// frame size found, if the probe succeeded; `listed` the compositor's
/// list of formats, if it gave one.  There is no stream without a probed
/// size.
pub fn start_stream(
    probe: Option<Size>,
    listed: Option<Vec<Format>>,
    overlay_cursor: bool,
    embedded_region: Option<EmbeddedRegion>,
    target: CastTarget,
) -> (setup: Option<StreamSetup>)
    requires
        probe.is_some() ==> probe.unwrap().wf(),
    ensures
        setup.is_some() == probe.is_some(),
        match setup {
            Some(stream) => {
                let size = probe.unwrap();
                let offered = match listed {
                    Some(list) => spec_carried(list@),
                    None => seq![VideoFormat::BGRx, VideoFormat::BGRA],
                };
                &&& stream.data.wf()
                &&& stream.data.size == size
                &&& stream.data.chosen_format.is_none()
                &&& stream.data.overlay_cursor == overlay_cursor
                &&& stream.data.embedded_region == embedded_region
                &&& stream.data.target == target
                &&& !stream.data.node_id_sent
                &&& stream.data.available_video_formats@ == offered
                &&& stream.format.width == size.width
                &&& stream.format.height == size.height
                &&& stream.format.framerate_num == 60
                &&& stream.format.framerate_denom == 1
                &&& stream.format.default_format == VideoFormat::BGRA
                &&& stream.format.alternatives@ == offered
                &&& stream.buffers == spec_buffers(size)
            },
            None => true,
        },
{
    match probe {
        None => None,
        Some(size) => {
            let offered = available_formats(listed);
            let for_graph = copy_formats(&offered);
            let data = StreamingData::new(
                size.width,
                size.height,
                overlay_cursor,
                offered,
                embedded_region,
                target,
            );
            let format = format(size.width, size.height, for_graph);
            let buffers = buffers(size.width, size.height);
            Some(StreamSetup { data, format, buffers })
        },
    }
}

/// How an attempt to create a memory file with `memfd_create` ended.
#[derive(Clone, Copy, Debug, PartialEq, Eq, Structural)]
pub enum MemfdOutcome {
    /// The file was created.
    Created,
    /// A signal interrupted the call.
    Interrupted,
    /// The system has no such call.
    Unsupported,
    /// The call failed with this error number.
    Failed(i32),
}

/// What follows an attempt to create a memory file.
#[derive(Clone, Copy, Debug, PartialEq, Eq, Structural)]
pub enum MemfdStep {
    /// Seal the file against shrinking and further seals, and use it.
    SealAndUse,
    /// Try again.
    Retry,
    /// Fall back to a shared-memory object.
    Fallback,
    /// Give up with this error number.
    Fail(i32),
}

/// How an attempt to open a new shared-memory object ended.
#[derive(Clone, Copy, Debug, PartialEq, Eq, Structural)]
pub enum ShmOutcome {
    /// The object was opened.
    Opened,
    /// An object of that name exists.
    Exists,
    /// A signal interrupted the call.
    Interrupted,
    /// The call failed with this error number.
    Failed(i32),
}

/// What follows an attempt to open a new shared-memory object.
#[derive(Clone, Copy, Debug, PartialEq, Eq, Structural)]
pub enum ShmStep {
    /// Unlink the name at once and use the object.
    UnlinkAndUse,
    /// Try again under a new name.
    Rename,
    /// Try again under the same name.
    Retry,
    /// Give up with this error number.
    Fail(i32),
}

/// What follows an attempt to create a memory file.
pub fn create_shm_fd(outcome: MemfdOutcome) -> (step: MemfdStep)
    ensures
        step == match outcome {
            MemfdOutcome::Created => MemfdStep::SealAndUse,
            MemfdOutcome::Interrupted => MemfdStep::Retry,
            MemfdOutcome::Unsupported => MemfdStep::Fallback,
            MemfdOutcome::Failed(errno) => MemfdStep::Fail(errno),
        },
{
    match outcome {
        MemfdOutcome::Created => MemfdStep::SealAndUse,
        MemfdOutcome::Interrupted => MemfdStep::Retry,
        MemfdOutcome::Unsupported => MemfdStep::Fallback,
        MemfdOutcome::Failed(errno) => MemfdStep::Fail(errno),
    }
}

/// What follows an attempt to open a new shared-memory object.
pub fn after_shm_open(outcome: ShmOutcome) -> (step: ShmStep)
    ensures
        step == match outcome {
            ShmOutcome::Opened => ShmStep::UnlinkAndUse,
            ShmOutcome::Exists => ShmStep::Rename,
            ShmOutcome::Interrupted => ShmStep::Retry,
            ShmOutcome::Failed(errno) => ShmStep::Fail(errno),
        },
{
    match outcome {
        ShmOutcome::Opened => ShmStep::UnlinkAndUse,
        ShmOutcome::Exists => ShmStep::Rename,
        ShmOutcome::Interrupted => ShmStep::Retry,
        ShmOutcome::Failed(errno) => ShmStep::Fail(errno),
    }
}

/// The character for a decimal digit.
pub open spec fn spec_digit(digit: nat) -> char {
    if digit == 0 {
        '0'
    } else if digit == 1 {
        '1'
    } else if digit == 2 {
        '2'
    } else if digit == 3 {
        '3'
    } else if digit == 4 {
        '4'
    } else if digit == 5 {
        '5'
    } else if digit == 6 {
        '6'
    } else if digit == 7 {
        '7'
    } else if digit == 8 {
        '8'
    } else {
        '9'
    }
}

/// A number in decimal digits, without leading zeros.
pub open spec fn spec_decimal(number: nat) -> Seq<char>
    decreases number,
{
    if number < 10 {
        seq![spec_digit(number)]
    } else {
        spec_decimal(number / 10).push(spec_digit(number % 10))
    }
}

/// The text of one decimal digit.
fn digit_text(digit: u32) -> (text: &'static str)
    requires
        digit < 10,
    ensures
        text@ == seq![spec_digit(digit as nat)],
{
    proof {
        reveal_strlit("0");
        reveal_strlit("1");
        reveal_strlit("2");
        reveal_strlit("3");
        reveal_strlit("4");
        reveal_strlit("5");
        reveal_strlit("6");
        reveal_strlit("7");
        reveal_strlit("8");
        reveal_strlit("9");
    }
    let text = if digit == 0 {
        "0"
    } else if digit == 1 {
        "1"
    } else if digit == 2 {
        "2"
    } else if digit == 3 {
        "3"
    } else if digit == 4 {
        "4"
    } else if digit == 5 {
        "5"
    } else if digit == 6 {
        "6"
    } else if digit == 7 {
        "7"
    } else if digit == 8 {
        "8"
    } else {
        "9"
    };
    proof {
        assert(text@ =~= seq![spec_digit(digit as nat)]);
    }
    text
}

/// A number in decimal digits.
pub fn decimal(number: u32) -> (text: String)
    ensures
        text@ == spec_decimal(number as nat),
    decreases number,
{
    if number < 10 {
        String::from_str(digit_text(number))
    } else {
        let front = decimal(number / 10);
        let last = digit_text(number % 10);
        let text = front.concat(last);
        proof {
            assert(text@ =~= spec_decimal(number as nat));
        }
        text
    }
}

/// The name of a shared-memory object made at a time whose fraction of a
/// second is `subsec_nanos` nanoseconds; `unknown` stands in where the
/// clock gave no time.
pub fn get_mem_file_handle(subsec_nanos: Option<u32>) -> (name: String)
    ensures
        name@ == "/luminous-"@ + match subsec_nanos {
            Some(nanos) => spec_decimal(nanos as nat),
            None => "unknown"@,
        },
{
    let prefix = String::from_str("/luminous-");
    match subsec_nanos {
        Some(nanos) => {
            let digits = decimal(nanos);
            prefix.concat(digits.as_str())
        },
        None => prefix.concat("unknown"),
    }
}

/// Closes out the data slots of a buffer that the graph takes away: the
/// result lists the descriptors to close, in order, and every slot is
/// left without a descriptor.
pub fn remove_buffer(fds: &mut Vec<i64>) -> (to_close: Vec<i64>)
    ensures
        to_close@ == old(fds)@,
        final(fds)@.len() == old(fds)@.len(),
        forall|i: int| 0 <= i < final(fds)@.len() ==> final(fds)@[i] == -1,
{
    let mut to_close: Vec<i64> = Vec::new();
    let mut index: usize = 0;
    while index < fds.len()
        invariant
            index <= fds.len(),
            fds@.len() == old(fds)@.len(),
            to_close@ == old(fds)@.take(index as int),
            forall|i: int| 0 <= i < index ==> fds@[i] == -1,
            forall|i: int| index <= i < fds@.len() ==> fds@[i] == old(fds)@[i],
        decreases fds.len() - index,
    {
        to_close.push(fds[index]);
        proof {
            assert(old(fds)@.take(index as int).push(old(fds)@[index as int]) =~= old(fds)@.take(
                index as int + 1,
            ));
        }
        fds.set(index, -1);
        index = index + 1;
    }
    proof {
        assert(old(fds)@.take(index as int) =~= old(fds)@);
    }
    to_close
}

} // verus!
