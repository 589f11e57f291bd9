//! What is drawn of an analysis frame, as steps for a graphics driver.

pub mod glfwrs;
pub mod glrs;

pub use glfwrs::{WindowUpdate, Winfo};

use crate::audio::FFT_SIZE;
use glrs::{DrawArrays, GLTextureSlot, TransparencyMode};
use vstd::prelude::*;

verus! {

/// Number of columns of the spectrogram texture: one per analysis frame
/// that the display remembers.
pub const NUM_SPECTROGRAM_FRAMES: usize = 512;

/// Number of vertices of the waveline's vertex object: five runs of
/// `FFT_SIZE` points.
pub const WAVE_VO_SIZE: usize = 5 * FFT_SIZE;

/// Half the width of the band of offsets in which the waveline is aligned
/// with the frame before.
pub const WAVE_SEARCH: i32 = 512;

/// The three things that are drawn.
#[derive(Debug, Clone, Copy, PartialEq, Eq, Structural)]
pub enum Renderer {
    Spectrogram,
    Waveline,
    FloatingIndicator,
}

/// The value of a shader parameter, as the quotient of two integers. The
/// driver gets the quotient of the two as floating-point numbers.
#[derive(Debug, Clone, Copy, PartialEq, Eq, Structural)]
pub struct Ratio {
    pub numerator: i64,
    pub denominator: i64,
}

/// One step of drawing a frame, for the driver to carry out.
#[derive(Debug, PartialEq, Eq)]
pub enum GLCommand {
    /// Clear the frame to transparent black.
    Clear,
    /// Make the shader program and the vertex object of a renderer current.
    Bind(Renderer),
    /// Bind the current renderer's texture to `slot`, and set the sampler
    /// at `location` to it.
    BindTexture { slot: GLTextureSlot, location: i32 },
    /// Set the parameter at `location` of the current program.
    Uniform { location: i32, value: Ratio },
    /// Switch to a way of blending.
    Transparency(TransparencyMode),
    /// Draw from the current vertex object.
    Draw(DrawArrays),
}

/// A strip of the spectrogram texture that takes the newest column of
/// pixels: `width` copies of it, side by side from column `x0` on.
#[derive(Debug, Clone, Copy, PartialEq, Eq, Structural)]
pub struct ColumnUpdate {
    pub x0: usize,
    pub width: usize,
}

/// The strips that take the pixels of frame `frame_n`: its own column and
/// the one after it, which on the last column is the first.
pub open spec fn spectrogram_columns(frame_n: usize) -> Seq<ColumnUpdate> {
    if frame_n == NUM_SPECTROGRAM_FRAMES - 1 {
        seq![ColumnUpdate { x0: frame_n, width: 1 }, ColumnUpdate { x0: 0, width: 1 }]
    } else {
        seq![ColumnUpdate { x0: frame_n, width: 2 }]
    }
}

/// The column that follows `frame_n`, going round from the last to the
/// first.
pub open spec fn next_frame(frame_n: usize) -> usize {
    if frame_n + 1 == NUM_SPECTROGRAM_FRAMES {
        0
    } else {
        (frame_n + 1) as usize
    }
}

/// The steps that draw the spectrogram whose newest column is `frame_n`, in
/// a window as `winfo` describes it.
pub open spec fn spectrogram_steps(frame_n: usize, winfo: Winfo) -> Seq<GLCommand> {
    seq![
        GLCommand::Bind(Renderer::Spectrogram),
        GLCommand::BindTexture { slot: GLTextureSlot::Tex0, location: 1 },
        GLCommand::Uniform {
            location: 2,
            value: Ratio { numerator: frame_n as i64, denominator: NUM_SPECTROGRAM_FRAMES as i64 },
        },
        GLCommand::Uniform {
            location: 3,
            value: Ratio { numerator: winfo.bounds.dim.1 as i64, denominator: 1 },
        },
        GLCommand::Draw(DrawArrays::Triangles { range: 0..2 }),
    ]
}

/// The steps that draw the lines with the waveform shifted by `wave_x_off`
/// samples.
pub open spec fn waveline_steps(wave_x_off: i32) -> Seq<GLCommand> {
    seq![
        GLCommand::Bind(Renderer::Waveline),
        GLCommand::Uniform {
            location: 1,
            value: Ratio { numerator: wave_x_off as i64, denominator: FFT_SIZE as i64 },
        },
        GLCommand::Draw(
            DrawArrays::LineStrip { range: 0..(FFT_SIZE as i32), line_width: 1, point_size: 1 },
        ),
        GLCommand::Draw(
            DrawArrays::LineStrip {
                range: (FFT_SIZE as i32)..((2 * FFT_SIZE) as i32),
                line_width: 1,
                point_size: 1,
            },
        ),
    ]
}

/// The steps that draw the mark of a floating window in a window as `winfo`
/// describes it.
pub open spec fn indicator_steps(winfo: Winfo) -> Seq<GLCommand> {
    seq![
        GLCommand::Bind(Renderer::FloatingIndicator),
        GLCommand::Uniform {
            location: 1,
            value: Ratio {
                numerator: winfo.bounds.dim.1 as i64,
                denominator: winfo.bounds.dim.0 as i64,
            },
        },
        GLCommand::Transparency(TransparencyMode::Replace),
        GLCommand::Draw(DrawArrays::Triangles { range: 0..1 }),
        GLCommand::Transparency(TransparencyMode::Normal),
    ]
}

/// Draws the scrolling spectrogram.
pub struct RenderSpectrogram {}

impl RenderSpectrogram {
    /// A renderer of the spectrogram.
    pub fn new() -> Self {
        RenderSpectrogram {  }
    }

    /// The steps that draw the spectrogram: the texture on a rectangle of
    /// two triangles, told which column is the newest, as a fraction of the
    /// texture's width, and how high the window is.
    pub fn render(&self, frame_n: usize, winfo: &Winfo) -> (steps: Vec<GLCommand>)
        requires
            frame_n < NUM_SPECTROGRAM_FRAMES,
        ensures
            steps@ == spectrogram_steps(frame_n, *winfo),
    {
        let mut steps = Vec::new();
        steps.push(GLCommand::Bind(Renderer::Spectrogram));
        steps.push(GLCommand::BindTexture { slot: GLTextureSlot::Tex0, location: 1 });
        steps.push(
            GLCommand::Uniform {
                location: 2,
                value: Ratio {
                    numerator: frame_n as i64,
                    denominator: NUM_SPECTROGRAM_FRAMES as i64,
                },
            },
        );
        steps.push(
            GLCommand::Uniform {
                location: 3,
                value: Ratio { numerator: winfo.bounds.dim.1 as i64, denominator: 1 },
            },
        );
        steps.push(GLCommand::Draw(DrawArrays::Triangles { range: 0..2 }));
        steps
    }

    /// The strips of the texture that take the pixels of frame `frame_n`.
    /// Every strip lies within the texture.
    pub fn set_wave(&self, frame_n: usize) -> (strips: Vec<ColumnUpdate>)
        requires
            frame_n < NUM_SPECTROGRAM_FRAMES,
        ensures
            strips@ == spectrogram_columns(frame_n),
            forall|k: int|
                0 <= k < strips@.len() ==> (#[trigger] strips@[k]).x0 + strips@[k].width
                    <= NUM_SPECTROGRAM_FRAMES,
    {
        let mut strips = Vec::new();
        if frame_n == NUM_SPECTROGRAM_FRAMES - 1 {
            strips.push(ColumnUpdate { x0: frame_n, width: 1 });
            strips.push(ColumnUpdate { x0: 0, width: 1 });
        } else {
            strips.push(ColumnUpdate { x0: frame_n, width: 2 });
        }
        strips
    }
}

/// Draws the waveform and the spectrum as lines, the waveform shifted
/// sideways so that it stands still from one frame to the next.
pub struct RenderWaveline {
    wave_x_off: i32,
}

/// The stretch of sample positions over which the waveform, moved by
/// `total_off` samples, is compared with the one before: positions 600 to
/// 900, as far as the moved waveform has samples there.
pub open spec fn compared(total_off: int) -> (int, int) {
    (
        if -total_off > 600 {
            -total_off
        } else {
            600
        },
        if FFT_SIZE - total_off < 900 {
            FFT_SIZE - total_off
        } else {
            900
        },
    )
}

/// The line strip over run `run` of the waveline's vertex object: `FFT_SIZE`
/// points from point `run * FFT_SIZE` on, one unit wide.
fn wave_strip(run: i32) -> (strip: DrawArrays)
    requires
        0 <= run < 5,
    ensures
        strip == (DrawArrays::LineStrip {
            range: ((run * FFT_SIZE) as i32)..(((run + 1) * FFT_SIZE) as i32),
            line_width: 1,
            point_size: 1,
        }),
{
    let size: i32 = FFT_SIZE as i32;
    DrawArrays::LineStrip { range: (run * size)..((run + 1) * size), line_width: 1, point_size: 1 }
}

/// Whether a waveform of one analysis frame has a sample at `position`.
pub open spec fn has_sample(position: int) -> bool {
    0 <= position < FFT_SIZE
}

impl RenderWaveline {
    /// The offset, in samples, at which the waveform was last found to match
    /// the one before.
    pub closed spec fn wave_x_off(&self) -> i32 {
        self.wave_x_off
    }

    /// The offset lies in the band that is searched.
    pub open spec fn wf(&self) -> bool {
        -WAVE_SEARCH <= self.wave_x_off() < WAVE_SEARCH
    }

    /// A renderer that draws the waveform where it is, with no offset.
    pub fn new() -> (waveline: Self)
        ensures
            waveline.wf(),
            waveline.wave_x_off() == 0,
    {
        RenderWaveline { wave_x_off: 0 }
    }

    /// The offset, in samples, at which the waveform was last found to match
    /// the one before.
    pub fn offset(&self) -> (wave_x_off: i32)
        ensures
            wave_x_off == self.wave_x_off(),
    {
        self.wave_x_off
    }

    /// The steps that draw the lines: the program is told the offset as a
    /// fraction of the window of samples, and the first two runs of
    /// `FFT_SIZE` points are drawn as one line strip each.
    pub fn render(&self) -> (steps: Vec<GLCommand>)
        ensures
            steps@ == waveline_steps(self.wave_x_off()),
    {
        let mut steps = Vec::new();
        steps.push(GLCommand::Bind(Renderer::Waveline));
        steps.push(
            GLCommand::Uniform {
                location: 1,
                value: Ratio { numerator: self.wave_x_off as i64, denominator: FFT_SIZE as i64 },
            },
        );
        steps.push(GLCommand::Draw(wave_strip(0)));
        steps.push(GLCommand::Draw(wave_strip(1)));
        steps
    }

    /// The sample positions at which the new waveform, tried at offset
    /// `off`, is compared with the one before. At every one of them both
    /// waveforms have a sample: the old one there, the new one `off` less
    /// the last offset further on.
    pub fn compare_range(&self, off: i32) -> (range: (i32, i32))
        requires
            self.wf(),
            -WAVE_SEARCH <= off < WAVE_SEARCH,
        ensures
            (range.0 as int, range.1 as int) == compared(off - self.wave_x_off()),
            forall|i: int|
                range.0 <= i < range.1 ==> #[trigger] has_sample(i) && has_sample(
                    i + (off - self.wave_x_off()),
                ),
    {
        let total_off = off - self.wave_x_off;
        let start = if -total_off > 600 {
            -total_off
        } else {
            600
        };
        let end = if FFT_SIZE as i32 - total_off < 900 {
            FFT_SIZE as i32 - total_off
        } else {
            900
        };
        (start, end)
    }

    /// Records the offset at which the new waveform matched best.
    pub fn set_wave(&mut self, best_off: i32)
        requires
            -WAVE_SEARCH <= best_off < WAVE_SEARCH,
        ensures
            final(self).wf(),
            final(self).wave_x_off() == best_off,
    {
        self.wave_x_off = best_off;
    }
}

/// Draws the mark that shows that the window floats above others.
pub struct RenderFloatingIndicator {}

impl RenderFloatingIndicator {
    /// A renderer of the mark.
    pub fn new() -> Self {
        RenderFloatingIndicator {  }
    }

    /// The steps that draw the mark: one triangle, told the window's height
    /// over its width, drawn over whatever is there, after which blending is
    /// back to normal.
    pub fn render(&self, winfo: &Winfo) -> (steps: Vec<GLCommand>)
        ensures
            steps@ == indicator_steps(*winfo),
    {
        let mut steps = Vec::new();
        steps.push(GLCommand::Bind(Renderer::FloatingIndicator));
        steps.push(
            GLCommand::Uniform {
                location: 1,
                value: Ratio {
                    numerator: winfo.bounds.dim.1 as i64,
                    denominator: winfo.bounds.dim.0 as i64,
                },
            },
        );
        steps.push(GLCommand::Transparency(TransparencyMode::Replace));
        steps.push(GLCommand::Draw(DrawArrays::Triangles { range: 0..1 }));
        steps.push(GLCommand::Transparency(TransparencyMode::Normal));
        steps
    }
}

/// The whole display: the three renderers, and the column of the
/// spectrogram that holds the newest frame.
pub struct RenderApp {
    render_spectrogram: RenderSpectrogram,
    render_waveline: RenderWaveline,
    render_floatingindicator: RenderFloatingIndicator,
    frame_n: usize,
}

impl RenderApp {
    /// The column of the spectrogram that holds the newest frame.
    pub closed spec fn frame_n(&self) -> usize {
        self.frame_n
    }

    /// The offset at which the waveform is drawn.
    pub closed spec fn wave_x_off(&self) -> i32 {
        self.render_waveline.wave_x_off()
    }

    /// The newest column is one of the texture's, and the waveform's offset
    /// lies in the band that is searched.
    pub closed spec fn wf(&self) -> bool {
        &&& self.frame_n < NUM_SPECTROGRAM_FRAMES
        &&& self.render_waveline.wf()
    }

    /// A display that has shown nothing yet.
    pub fn new() -> (app: Self)
        ensures
            app.wf(),
            app.frame_n() == 0,
            app.wave_x_off() == 0,
    {
        RenderApp {
            render_spectrogram: RenderSpectrogram::new(),
            render_waveline: RenderWaveline::new(),
            render_floatingindicator: RenderFloatingIndicator::new(),
            frame_n: 0,
        }
    }

    /// The waveline, whose [`RenderWaveline::compare_range`] says where two
    /// waveforms are compared.
    pub fn waveline(&self) -> (waveline: &RenderWaveline)
        ensures
            waveline.wave_x_off() == self.wave_x_off(),
            self.wf() ==> waveline.wf(),
    {
        &self.render_waveline
    }

    /// The steps that draw one frame: the frame is cleared, then come the
    /// spectrogram, the lines and, for a floating window only, its mark.
    pub fn draw(&self, winfo: &Winfo) -> (steps: Vec<GLCommand>)
        requires
            self.wf(),
        ensures
            steps@ == seq![GLCommand::Clear] + spectrogram_steps(self.frame_n(), *winfo)
                + waveline_steps(self.wave_x_off()) + if winfo.floating {
                indicator_steps(*winfo)
            } else {
                Seq::empty()
            },
    {
        let mut steps = Vec::new();
        steps.push(GLCommand::Clear);
        let mut spectrogram = self.render_spectrogram.render(self.frame_n, winfo);
        steps.append(&mut spectrogram);
        let mut waveline = self.render_waveline.render();
        steps.append(&mut waveline);
        if winfo.floating {
            let mut indicator = self.render_floatingindicator.render(winfo);
            steps.append(&mut indicator);
        }
        steps
    }

    /// Moves on to the next frame: the waveform is from now on drawn at
    /// `best_off`, the newest column is the one after the last, going round
    /// at the end, and the strips of the texture that take the new frame's
    /// pixels are returned.
    pub fn set_wave(&mut self, best_off: i32) -> (strips: Vec<ColumnUpdate>)
        requires
            old(self).wf(),
            -WAVE_SEARCH <= best_off < WAVE_SEARCH,
        ensures
            final(self).wf(),
            final(self).wave_x_off() == best_off,
            final(self).frame_n() == next_frame(old(self).frame_n()),
            strips@ == spectrogram_columns(final(self).frame_n()),
    {
        self.render_waveline.set_wave(best_off);
        self.frame_n += 1;
        if self.frame_n == NUM_SPECTROGRAM_FRAMES {
            self.frame_n = 0;
        }
        self.render_spectrogram.set_wave(self.frame_n)
    }
}

} // verus!
