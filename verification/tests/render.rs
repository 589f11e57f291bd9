use spexia::render::glfwrs::{WindowUpdate, Winfo};
use spexia::render::glrs::{
    BlendFunc, DrawArrays, DrawCall, GLError, GLShader, GLShaderProgramBuilder, GLShaderType,
    GLTextureSlot, Rgba, TransparencyMode,
};
use spexia::render::{
    ColumnUpdate, GLCommand, Ratio, RenderApp, RenderFloatingIndicator, RenderSpectrogram,
    RenderWaveline, Renderer, NUM_SPECTROGRAM_FRAMES, WAVE_VO_SIZE,
};
use spexia::util::{RectI, Vec2I};

fn winfo(width: i32, height: i32, floating: bool) -> Winfo {
    Winfo {
        bounds: RectI { pos: Vec2I(10, 20), dim: Vec2I(width, height) },
        floating,
        decorated: true,
    }
}

fn spectrogram_steps(frame_n: i64, height: i64) -> Vec<GLCommand> {
    vec![
        GLCommand::Bind(Renderer::Spectrogram),
        GLCommand::BindTexture { slot: GLTextureSlot::Tex0, location: 1 },
        GLCommand::Uniform { location: 2, value: Ratio { numerator: frame_n, denominator: 512 } },
        GLCommand::Uniform { location: 3, value: Ratio { numerator: height, denominator: 1 } },
        GLCommand::Draw(DrawArrays::Triangles { range: 0..2 }),
    ]
}

fn waveline_steps(offset: i64) -> Vec<GLCommand> {
    vec![
        GLCommand::Bind(Renderer::Waveline),
        GLCommand::Uniform { location: 1, value: Ratio { numerator: offset, denominator: 2048 } },
        GLCommand::Draw(DrawArrays::LineStrip { range: 0..2048, line_width: 1, point_size: 1 }),
        GLCommand::Draw(DrawArrays::LineStrip { range: 2048..4096, line_width: 1, point_size: 1 }),
    ]
}

fn indicator_steps(width: i64, height: i64) -> Vec<GLCommand> {
    vec![
        GLCommand::Bind(Renderer::FloatingIndicator),
        GLCommand::Uniform { location: 1, value: Ratio { numerator: height, denominator: width } },
        GLCommand::Transparency(TransparencyMode::Replace),
        GLCommand::Draw(DrawArrays::Triangles { range: 0..1 }),
        GLCommand::Transparency(TransparencyMode::Normal),
    ]
}

#[test]
fn shader_types_have_the_numbers_of_the_driver() {
    assert_eq!(GLShaderType::Fragment.gl_value(), 0x8B30);
    assert_eq!(GLShaderType::Vertex.gl_value(), 0x8B31);
    assert_eq!(GLShaderType::Fragment.gl_value(), gl::FRAGMENT_SHADER);
    assert_eq!(GLShaderType::Vertex.gl_value(), gl::VERTEX_SHADER);
}

#[test]
fn shader_types_have_names() {
    assert_eq!(GLShaderType::Fragment.name(), "Fragment");
    assert_eq!(GLShaderType::Vertex.name(), "Vertex");
}

#[test]
fn errors_describe_themselves() {
    let error = GLError::ShaderCompilation {
        typ: GLShaderType::Vertex,
        message: "0:1: syntax error".to_string(),
    };
    assert_eq!(error.describe(), "[ !!!!!!! ] Shader/Vertex compile failed:\n0:1: syntax error");
    let error = GLError::ShaderCompilation { typ: GLShaderType::Fragment, message: String::new() };
    assert_eq!(error.describe(), "[ !!!!!!! ] Shader/Fragment compile failed:\n");
    let error = GLError::ShaderLinking { message: "no main".to_string() };
    assert_eq!(error.describe(), "[ !!!!!!! ] Shader link failed:\nno main");
}

#[test]
fn compile_status_zero_is_failure() {
    let shader = GLShader::new(GLShaderType::Fragment, 7);
    assert_eq!(shader.id(), 7);
    assert!(shader.compile(1, "ignored".to_string()).is_ok());
    assert!(shader.compile(-1, String::new()).is_ok());
    match shader.compile(0, "bad".to_string()) {
        Err(GLError::ShaderCompilation { typ, message }) => {
            assert_eq!(typ, GLShaderType::Fragment);
            assert_eq!(message, "bad");
        }
        other => panic!("unexpected outcome: {:?}", other),
    }
}

#[test]
fn link_status_zero_is_failure() {
    let vertex = GLShader::new(GLShaderType::Vertex, 3);
    let builder = GLShaderProgramBuilder::new(12);
    assert_eq!(builder.attatch_shader(&vertex), (12, 3));
    match builder.link(0, "unresolved".to_string()) {
        Err(GLError::ShaderLinking { message }) => assert_eq!(message, "unresolved"),
        _ => panic!("linking should have failed"),
    }
    let linked = match GLShaderProgramBuilder::new(12).link(1, String::new()) {
        Ok(linked) => linked,
        Err(error) => panic!("unexpected failure: {:?}", error),
    };
    assert_eq!(linked.use_for_draw(), 12);
}

#[test]
fn colours_compare_by_channel() {
    let colour = Rgba { r: 1u8, g: 2u8, b: 3u8, a: 4u8 };
    assert_eq!(colour, Rgba { r: 1, g: 2, b: 3, a: 4 });
    assert_ne!(colour, Rgba { r: 1, g: 2, b: 3, a: 5 });
    assert_eq!(Rgba::<u8>::default(), Rgba { r: 0, g: 0, b: 0, a: 0 });
}

#[test]
fn texture_slot_zero() {
    assert_eq!(GLTextureSlot::Tex0.gl_int(), 0);
    assert_eq!(GLTextureSlot::Tex0.gl_enum(), 0x84C0);
    assert_eq!(GLTextureSlot::Tex0.gl_enum(), gl::TEXTURE0);
}

#[test]
fn transparency_modes_blend() {
    assert_eq!(
        TransparencyMode::Normal.apply(),
        BlendFunc { equation: 0x8006, source: 0x0302, destination: 0x0303 }
    );
    assert_eq!(
        TransparencyMode::Replace.apply(),
        BlendFunc { equation: 0x8006, source: 0x0302, destination: 0 }
    );
    assert_eq!(
        TransparencyMode::Normal.apply(),
        BlendFunc {
            equation: gl::FUNC_ADD,
            source: gl::SRC_ALPHA,
            destination: gl::ONE_MINUS_SRC_ALPHA
        }
    );
    assert_eq!(
        TransparencyMode::Replace.apply(),
        BlendFunc { equation: gl::FUNC_ADD, source: gl::SRC_ALPHA, destination: gl::ZERO }
    );
}

#[test]
fn triangles_take_three_vertices_each() {
    let call = DrawArrays::Triangles { range: 0..2 }.exec();
    assert_eq!(call, DrawCall { mode: 4, first: 0, count: 6 });
    let call = DrawArrays::Triangles { range: 4..5 }.exec();
    assert_eq!(call, DrawCall { mode: gl::TRIANGLES, first: 4, count: 3 });
    let call = DrawArrays::Triangles { range: 3..3 }.exec();
    assert_eq!(call, DrawCall { mode: 4, first: 3, count: 0 });
}

#[test]
fn line_strips_take_one_vertex_per_point() {
    let call = DrawArrays::LineStrip { range: 2048..4096, line_width: 1, point_size: 1 }.exec();
    assert_eq!(call, DrawCall { mode: 3, first: 2048, count: 2048 });
    assert_eq!(call.mode, gl::LINE_STRIP);
}

#[test]
fn window_update_sets_what_differs() {
    let mut current = winfo(800, 600, false);
    let same = current;
    let nothing = WindowUpdate { pos: None, size: None, decorated: None, floating: None };
    assert_eq!(current.update_from_winfo(same), nothing);
    assert_eq!(current, same);

    let mut wanted = current;
    wanted.floating = true;
    assert_eq!(
        current.update_from_winfo(wanted),
        WindowUpdate { pos: None, size: None, decorated: None, floating: Some(true) }
    );
    assert_eq!(current, wanted);
    assert_eq!(current.update_from_winfo(wanted), nothing);

    let moved = Winfo {
        bounds: RectI { pos: Vec2I(-5, 20), dim: Vec2I(800, 601) },
        floating: true,
        decorated: false,
    };
    assert_eq!(
        current.update_from_winfo(moved),
        WindowUpdate {
            pos: Some(Vec2I(-5, 20)),
            size: Some(Vec2I(800, 601)),
            decorated: Some(false),
            floating: None,
        }
    );
    assert_eq!(current, moved);
}

#[test]
fn spectrogram_is_drawn_as_two_triangles() {
    let spectrogram = RenderSpectrogram::new();
    assert_eq!(spectrogram.render(0, &winfo(800, 600, false)), spectrogram_steps(0, 600));
    assert_eq!(spectrogram.render(511, &winfo(1, 1024, true)), spectrogram_steps(511, 1024));
}

#[test]
fn spectrogram_columns_go_round() {
    let spectrogram = RenderSpectrogram::new();
    assert_eq!(NUM_SPECTROGRAM_FRAMES, 512);
    assert_eq!(spectrogram.set_wave(0), vec![ColumnUpdate { x0: 0, width: 2 }]);
    assert_eq!(spectrogram.set_wave(510), vec![ColumnUpdate { x0: 510, width: 2 }]);
    assert_eq!(
        spectrogram.set_wave(511),
        vec![ColumnUpdate { x0: 511, width: 1 }, ColumnUpdate { x0: 0, width: 1 }]
    );
    for frame_n in 0..NUM_SPECTROGRAM_FRAMES {
        for strip in spectrogram.set_wave(frame_n) {
            assert!(strip.x0 + strip.width <= NUM_SPECTROGRAM_FRAMES);
        }
    }
}

#[test]
fn waveline_draws_two_strips() {
    let mut waveline = RenderWaveline::new();
    assert_eq!(WAVE_VO_SIZE, 10240);
    assert_eq!(waveline.render(), waveline_steps(0));
    assert_eq!(waveline.offset(), 0);
    waveline.set_wave(-512);
    assert_eq!(waveline.offset(), -512);
    assert_eq!(waveline.render(), waveline_steps(-512));
    waveline.set_wave(510);
    assert_eq!(waveline.render(), waveline_steps(510));
}

#[test]
fn waveforms_are_compared_where_both_have_samples() {
    let mut waveline = RenderWaveline::new();
    assert_eq!(waveline.compare_range(0), (600, 900));
    assert_eq!(waveline.compare_range(-512), (600, 900));
    assert_eq!(waveline.compare_range(510), (600, 900));
    waveline.set_wave(510);
    assert_eq!(waveline.compare_range(-512), (1022, 900));
    assert_eq!(waveline.compare_range(-100), (610, 900));
    assert_eq!(waveline.compare_range(-90), (600, 900));
    waveline.set_wave(-512);
    assert_eq!(waveline.compare_range(510), (600, 900));
    for last in (-512..512).step_by(2) {
        waveline.set_wave(last);
        for off in (-512..512).step_by(2) {
            let (start, end) = waveline.compare_range(off);
            let total = off - last;
            assert_eq!(start, 600.max(-total));
            assert_eq!(end, 900.min(2048 - total));
            if start < end {
                assert!(start >= 0 && end <= 2048);
                assert!(start + total >= 0 && end + total <= 2048);
            }
        }
    }
}

#[test]
fn indicator_is_drawn_over_what_is_there() {
    let indicator = RenderFloatingIndicator::new();
    assert_eq!(indicator.render(&winfo(800, 600, true)), indicator_steps(800, 600));
    assert_eq!(indicator.render(&winfo(0, 600, true)), indicator_steps(0, 600));
}

#[test]
fn frame_is_cleared_then_drawn_in_order() {
    let app = RenderApp::new();
    let mut expected = vec![GLCommand::Clear];
    expected.extend(spectrogram_steps(0, 600));
    expected.extend(waveline_steps(0));
    assert_eq!(app.draw(&winfo(800, 600, false)), expected);
    expected.extend(indicator_steps(800, 600));
    assert_eq!(app.draw(&winfo(800, 600, true)), expected);
}

#[test]
fn each_wave_moves_to_the_next_column() {
    let mut app = RenderApp::new();
    assert_eq!(app.set_wave(4), vec![ColumnUpdate { x0: 1, width: 2 }]);
    assert_eq!(app.waveline().compare_range(4), (600, 900));
    let mut expected = vec![GLCommand::Clear];
    expected.extend(spectrogram_steps(1, 600));
    expected.extend(waveline_steps(4));
    assert_eq!(app.draw(&winfo(800, 600, false)), expected);
    for frame_n in 2..NUM_SPECTROGRAM_FRAMES - 1 {
        assert_eq!(app.set_wave(0), vec![ColumnUpdate { x0: frame_n, width: 2 }]);
    }
    assert_eq!(
        app.set_wave(0),
        vec![ColumnUpdate { x0: 511, width: 1 }, ColumnUpdate { x0: 0, width: 1 }]
    );
    assert_eq!(app.set_wave(-2), vec![ColumnUpdate { x0: 0, width: 2 }]);
    assert_eq!(app.set_wave(-2), vec![ColumnUpdate { x0: 1, width: 2 }]);
}
