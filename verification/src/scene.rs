//! The demo scene's fixed configuration: grid dimensions, tile geometry,
//! camera bounds, the per-frame uniforms and draw parameters, and the two
//! shader source strings. The scene has no live camera, so the per-frame
//! computation is constant across frames.

use vstd::prelude::*;

use crate::matrix::{identity, is_ortho, is_uniform_scale, ortho_projection, uniform_scale, Mat4};
use crate::rat::Rat;

verus! {

/// Grid width in tiles.
pub const DEMO_X_DIM: u32 = 3;

/// Grid height in tiles.
pub const DEMO_Y_DIM: u32 = 3;

/// Tile width in world units.
pub const DEMO_TILE_WIDTH: i64 = 58;

/// Tile height in world units.
pub const DEMO_TILE_HEIGHT: i64 = 30;

/// Vertical step between rows in world units.
pub const DEMO_ROW_STEP: i64 = 15;

/// Uniform scale of the fixed view matrix.
pub const DEMO_VIEW_SCALE: i64 = 10;

/// Left bound of the orthographic box.
pub const ORTHO_LEFT: i64 = 0;

/// Right bound of the orthographic box.
pub const ORTHO_RIGHT: i64 = 1920;

/// Bottom bound of the orthographic box.
pub const ORTHO_BOTTOM: i64 = 0;

/// Top bound of the orthographic box.
pub const ORTHO_TOP: i64 = 1080;

/// Near bound of the orthographic box.
pub const ORTHO_NEAR: i64 = -100;

/// Far bound of the orthographic box.
pub const ORTHO_FAR: i64 = 100;

/// Fixed-function state for the one draw call: depth test passing when the
/// incoming depth is less than the stored one, depth writes on, alpha
/// blending on.
#[derive(Clone, Copy, Debug, PartialEq, Eq, Structural)]
pub struct DrawSettings {
    pub depth_test_less: bool,
    pub depth_write: bool,
    pub alpha_blend: bool,
}

/// The frame clear color as exact rationals in `[0, 1]`.
#[derive(Clone, Copy, Debug, PartialEq, Eq, Structural)]
pub struct ClearColor {
    pub red: Rat,
    pub green: Rat,
    pub blue: Rat,
    pub alpha: Rat,
}

/// Everything one frame binds: the three transform matrices, the clear
/// color and depth, and the draw settings.
pub struct FrameSetup {
    pub model: Mat4,
    pub view: Mat4,
    pub projection: Mat4,
    pub clear_color: ClearColor,
    pub clear_depth: Rat,
    pub settings: DrawSettings,
}

/// Computes the uniforms and draw parameters for one frame: identity
/// model, uniform-scale view, the demo's orthographic projection, a fixed
/// gray clear at full depth, and the fixed draw settings. Constant in this
/// scene: every frame gets the same value.
pub fn frame_setup() -> (fs: FrameSetup)
    ensures
        is_uniform_scale(fs.model, 1),
        is_uniform_scale(fs.view, DEMO_VIEW_SCALE as int),
        is_ortho(
            fs.projection,
            ORTHO_LEFT as int,
            ORTHO_RIGHT as int,
            ORTHO_BOTTOM as int,
            ORTHO_TOP as int,
            ORTHO_NEAR as int,
            ORTHO_FAR as int,
        ),
        fs.clear_color == (ClearColor {
            red: Rat { num: 7, den: 10 },
            green: Rat { num: 7, den: 10 },
            blue: Rat { num: 7, den: 10 },
            alpha: Rat { num: 1, den: 1 },
        }),
        fs.clear_depth == (Rat { num: 1, den: 1 }),
        fs.settings == (DrawSettings { depth_test_less: true, depth_write: true, alpha_blend: true }),
{
    let gray = Rat { num: 7, den: 10 };
    FrameSetup {
        model: identity(),
        view: uniform_scale(DEMO_VIEW_SCALE),
        projection: ortho_projection(
            ORTHO_LEFT,
            ORTHO_RIGHT,
            ORTHO_BOTTOM,
            ORTHO_TOP,
            ORTHO_NEAR,
            ORTHO_FAR,
        ),
        clear_color: ClearColor { red: gray, green: gray, blue: gray, alpha: Rat { num: 1, den: 1 } },
        clear_depth: Rat { num: 1, den: 1 },
        settings: DrawSettings { depth_test_less: true, depth_write: true, alpha_blend: true },
    }
}

/// The vertex shader source: passes texture coordinates through and
/// transforms each position by projection, view and model in that order.
pub fn vertex_shader_source() -> &'static str {
    "#version 150

in vec3 position;
in vec2 tex_coords;

out vec2 v_tex_coords;

uniform mat4 perspective;
uniform mat4 model;
uniform mat4 view;

void main() {
    v_tex_coords = tex_coords;
    gl_Position = perspective * view * model * vec4(position, 1.0);
}
"
}

/// The fragment shader source: samples the diffuse texture at the
/// interpolated coordinates.
pub fn fragment_shader_source() -> &'static str {
    "#version 140

in vec2 v_tex_coords;

out vec4 color;

uniform sampler2D diffuse_tex;

void main() {
    color = texture(diffuse_tex, v_tex_coords).rgba;
}
"
}

} // verus!
