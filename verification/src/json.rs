//! The persisted edit-state document: a fixed-shape JSON object written
//! field by field, a parser specified field by field, and the proved
//! round trip between them. Saving and re-loading a state returns that
//! state; whatever the loader accepts, saving the result reproduces the
//! accepted text character for character.

use vstd::prelude::*;
use crate::duration::{
    char_from, lemma_pow10_vals, spec_all_digits, spec_char_from, spec_digit_val,
    spec_digits_val, spec_is_digit, spec_pow10,
};
use crate::edit_state::EditState;
use crate::kinds::{Aspect, BackgroundType, CameraPosition, CameraShape, LayoutMode};
use crate::num::{
    digit_char, push_cent, push_u64, spec_cent_str, spec_frac_digits, spec_padded_digits,
    spec_u64_str,
};
use crate::strutil::str_eq;

verus! {

/// The word for an aspect ratio.
pub open spec fn spec_aspect_word(a: Aspect) -> Seq<char> {
    match a {
        Aspect::Ratio16x9 => "16:9"@,
        Aspect::Ratio1x1 => "1:1"@,
        Aspect::Ratio9x16 => "9:16"@,
    }
}

/// The word for a camera shape.
pub open spec fn spec_shape_word(s: CameraShape) -> Seq<char> {
    match s {
        CameraShape::Circle => "circle"@,
        CameraShape::Rounded => "rounded"@,
        CameraShape::Sharp => "sharp"@,
    }
}

/// The word for a background type.
pub open spec fn spec_bg_word(b: BackgroundType) -> Seq<char> {
    match b {
        BackgroundType::Gradient => "gradient"@,
        BackgroundType::Wallpaper => "wallpaper"@,
    }
}

/// The word for a camera position.
pub open spec fn spec_pos_word(p: CameraPosition) -> Seq<char> {
    match p {
        CameraPosition::TopLeft => "top_left"@,
        CameraPosition::TopRight => "top_right"@,
        CameraPosition::BottomLeft => "bottom_left"@,
        CameraPosition::BottomRight => "bottom_right"@,
    }
}

/// The word for a layout mode.
pub open spec fn spec_mode_word(m: LayoutMode) -> Seq<char> {
    match m {
        LayoutMode::Shrink => "shrink"@,
        LayoutMode::Split => "split"@,
    }
}

/// The word for a boolean.
pub open spec fn spec_bool_word(b: bool) -> Seq<char> {
    if b {
        "true"@
    } else {
        "false"@
    }
}

/// The aspect ratio a word names.
pub open spec fn spec_word_to_aspect(w: Seq<char>) -> Option<Aspect> {
    if w == "16:9"@ {
        Some(Aspect::Ratio16x9)
    } else if w == "1:1"@ {
        Some(Aspect::Ratio1x1)
    } else if w == "9:16"@ {
        Some(Aspect::Ratio9x16)
    } else {
        None
    }
}

/// The camera shape a word names.
pub open spec fn spec_word_to_shape(w: Seq<char>) -> Option<CameraShape> {
    if w == "circle"@ {
        Some(CameraShape::Circle)
    } else if w == "rounded"@ {
        Some(CameraShape::Rounded)
    } else if w == "sharp"@ {
        Some(CameraShape::Sharp)
    } else {
        None
    }
}

/// The background type a word names.
pub open spec fn spec_word_to_bg(w: Seq<char>) -> Option<BackgroundType> {
    if w == "gradient"@ {
        Some(BackgroundType::Gradient)
    } else if w == "wallpaper"@ {
        Some(BackgroundType::Wallpaper)
    } else {
        None
    }
}

/// The camera position a word names.
pub open spec fn spec_word_to_pos(w: Seq<char>) -> Option<CameraPosition> {
    if w == "top_left"@ {
        Some(CameraPosition::TopLeft)
    } else if w == "top_right"@ {
        Some(CameraPosition::TopRight)
    } else if w == "bottom_left"@ {
        Some(CameraPosition::BottomLeft)
    } else if w == "bottom_right"@ {
        Some(CameraPosition::BottomRight)
    } else {
        None
    }
}

/// The layout mode a word names.
pub open spec fn spec_word_to_mode(w: Seq<char>) -> Option<LayoutMode> {
    if w == "shrink"@ {
        Some(LayoutMode::Shrink)
    } else if w == "split"@ {
        Some(LayoutMode::Split)
    } else {
        None
    }
}

/// The document text up to (and excluding) the first field.
#[verifier::opaque]
pub open spec fn spec_doc_upto_0(es: EditState) -> Seq<char> {
    Seq::<char>::empty()
}

/// The document text through field 0 (`aspect`).
#[verifier::opaque]
pub open spec fn spec_doc_upto_1(es: EditState) -> Seq<char> {
    spec_doc_upto_0(es) + "{\"aspect\":\""@ + spec_aspect_word(es.aspect) + "\""@
}

/// The document text through field 1 (`padding`).
#[verifier::opaque]
pub open spec fn spec_doc_upto_2(es: EditState) -> Seq<char> {
    spec_doc_upto_1(es) + ",\"padding\":"@ + spec_u64_str(es.padding as nat)
}

/// The document text through field 2 (`radius`).
#[verifier::opaque]
pub open spec fn spec_doc_upto_3(es: EditState) -> Seq<char> {
    spec_doc_upto_2(es) + ",\"radius\":"@ + spec_u64_str(es.radius as nat)
}

/// The document text through field 3 (`shadow`).
#[verifier::opaque]
pub open spec fn spec_doc_upto_4(es: EditState) -> Seq<char> {
    spec_doc_upto_3(es) + ",\"shadow\":"@ + spec_u64_str(es.shadow as nat)
}

/// The document text through field 4 (`camera_size`).
#[verifier::opaque]
pub open spec fn spec_doc_upto_5(es: EditState) -> Seq<char> {
    spec_doc_upto_4(es) + ",\"camera_size\":"@ + spec_u64_str(es.camera_size as nat)
}

/// The document text through field 5 (`camera_shape`).
#[verifier::opaque]
pub open spec fn spec_doc_upto_6(es: EditState) -> Seq<char> {
    spec_doc_upto_5(es) + ",\"camera_shape\":\""@ + spec_shape_word(es.camera_shape) + "\""@
}

/// The document text through field 6 (`camera_shadow`).
#[verifier::opaque]
pub open spec fn spec_doc_upto_7(es: EditState) -> Seq<char> {
    spec_doc_upto_6(es) + ",\"camera_shadow\":"@ + spec_u64_str(es.camera_shadow as nat)
}

/// The document text through field 7 (`camera_mirror`).
#[verifier::opaque]
pub open spec fn spec_doc_upto_8(es: EditState) -> Seq<char> {
    spec_doc_upto_7(es) + ",\"camera_mirror\":"@ + spec_bool_word(es.camera_mirror)
}

/// The document text through field 8 (`camera_blur`).
#[verifier::opaque]
pub open spec fn spec_doc_upto_9(es: EditState) -> Seq<char> {
    spec_doc_upto_8(es) + ",\"camera_blur\":"@ + spec_bool_word(es.camera_blur)
}

/// The document text through field 9 (`background_type`).
#[verifier::opaque]
pub open spec fn spec_doc_upto_10(es: EditState) -> Seq<char> {
    spec_doc_upto_9(es) + ",\"background_type\":\""@ + spec_bg_word(es.background_type) + "\""@
}

/// The document text through field 10 (`background_preset`).
#[verifier::opaque]
pub open spec fn spec_doc_upto_11(es: EditState) -> Seq<char> {
    spec_doc_upto_10(es) + ",\"background_preset\":"@ + spec_u64_str(es.background_preset as nat)
}

/// The document text through field 11 (`camera_position`).
#[verifier::opaque]
pub open spec fn spec_doc_upto_12(es: EditState) -> Seq<char> {
    spec_doc_upto_11(es) + ",\"camera_position\":\""@ + spec_pos_word(es.camera_position) + "\""@
}

/// The document text through field 12 (`shrink_16_9_cent`).
#[verifier::opaque]
pub open spec fn spec_doc_upto_13(es: EditState) -> Seq<char> {
    spec_doc_upto_12(es) + ",\"shrink_16_9\":"@ + spec_cent_str(es.shrink_16_9_cent as nat)
}

/// The document text through field 13 (`shrink_1_1_cent`).
#[verifier::opaque]
pub open spec fn spec_doc_upto_14(es: EditState) -> Seq<char> {
    spec_doc_upto_13(es) + ",\"shrink_1_1\":"@ + spec_cent_str(es.shrink_1_1_cent as nat)
}

/// The document text through field 14 (`shrink_9_16_cent`).
#[verifier::opaque]
pub open spec fn spec_doc_upto_15(es: EditState) -> Seq<char> {
    spec_doc_upto_14(es) + ",\"shrink_9_16\":"@ + spec_cent_str(es.shrink_9_16_cent as nat)
}

/// The document text through field 15 (`portrait_split`).
#[verifier::opaque]
pub open spec fn spec_doc_upto_16(es: EditState) -> Seq<char> {
    spec_doc_upto_15(es) + ",\"portrait_split\":"@ + spec_bool_word(es.portrait_split)
}

/// The document text through field 16 (`portrait_bottom_ratio_cent`).
#[verifier::opaque]
pub open spec fn spec_doc_upto_17(es: EditState) -> Seq<char> {
    spec_doc_upto_16(es) + ",\"portrait_bottom_ratio\":"@ + spec_cent_str(es.portrait_bottom_ratio_cent as nat)
}

/// The document text through field 17 (`mode_16_9`).
#[verifier::opaque]
pub open spec fn spec_doc_upto_18(es: EditState) -> Seq<char> {
    spec_doc_upto_17(es) + ",\"mode_16_9\":\""@ + spec_mode_word(es.mode_16_9) + "\""@
}

/// The document text through field 18 (`mode_1_1`).
#[verifier::opaque]
pub open spec fn spec_doc_upto_19(es: EditState) -> Seq<char> {
    spec_doc_upto_18(es) + ",\"mode_1_1\":\""@ + spec_mode_word(es.mode_1_1) + "\""@
}

/// The document text through field 19 (`mode_9_16`).
#[verifier::opaque]
pub open spec fn spec_doc_upto_20(es: EditState) -> Seq<char> {
    spec_doc_upto_19(es) + ",\"mode_9_16\":\""@ + spec_mode_word(es.mode_9_16) + "\""@
}

/// The document text through field 20 (`title_safe_16_9_cent`).
#[verifier::opaque]
pub open spec fn spec_doc_upto_21(es: EditState) -> Seq<char> {
    spec_doc_upto_20(es) + ",\"title_safe_16_9\":"@ + spec_cent_str(es.title_safe_16_9_cent as nat)
}

/// The document text through field 21 (`subtitle_safe_16_9_cent`).
#[verifier::opaque]
pub open spec fn spec_doc_upto_22(es: EditState) -> Seq<char> {
    spec_doc_upto_21(es) + ",\"subtitle_safe_16_9\":"@ + spec_cent_str(es.subtitle_safe_16_9_cent as nat)
}

/// The document text through field 22 (`title_safe_1_1_cent`).
#[verifier::opaque]
pub open spec fn spec_doc_upto_23(es: EditState) -> Seq<char> {
    spec_doc_upto_22(es) + ",\"title_safe_1_1\":"@ + spec_cent_str(es.title_safe_1_1_cent as nat)
}

/// The document text through field 23 (`subtitle_safe_1_1_cent`).
#[verifier::opaque]
pub open spec fn spec_doc_upto_24(es: EditState) -> Seq<char> {
    spec_doc_upto_23(es) + ",\"subtitle_safe_1_1\":"@ + spec_cent_str(es.subtitle_safe_1_1_cent as nat)
}

/// The document text through field 24 (`title_safe_9_16_cent`).
#[verifier::opaque]
pub open spec fn spec_doc_upto_25(es: EditState) -> Seq<char> {
    spec_doc_upto_24(es) + ",\"title_safe_9_16\":"@ + spec_cent_str(es.title_safe_9_16_cent as nat)
}

/// The document text through field 25 (`subtitle_safe_9_16_cent`).
#[verifier::opaque]
pub open spec fn spec_doc_upto_26(es: EditState) -> Seq<char> {
    spec_doc_upto_25(es) + ",\"subtitle_safe_9_16\":"@ + spec_cent_str(es.subtitle_safe_9_16_cent as nat)
}

/// The saved edit-state document, field by field in a fixed order.
pub open spec fn spec_edit_state_json(es: EditState) -> Seq<char> {
    spec_doc_upto_26(es) + "}"@
}

/// The document text from the closing brace on.
#[verifier::opaque]
pub open spec fn spec_doc_from_26(es: EditState) -> Seq<char> {
    "}"@
}

/// The document text from field 25 (`subtitle_safe_9_16_cent`) on.
#[verifier::opaque]
pub open spec fn spec_doc_from_25(es: EditState) -> Seq<char> {
    ",\"subtitle_safe_9_16\":"@ + (spec_cent_str(es.subtitle_safe_9_16_cent as nat) + spec_doc_from_26(es))
}

/// The document text from field 24 (`title_safe_9_16_cent`) on.
#[verifier::opaque]
pub open spec fn spec_doc_from_24(es: EditState) -> Seq<char> {
    ",\"title_safe_9_16\":"@ + (spec_cent_str(es.title_safe_9_16_cent as nat) + spec_doc_from_25(es))
}

/// The document text from field 23 (`subtitle_safe_1_1_cent`) on.
#[verifier::opaque]
pub open spec fn spec_doc_from_23(es: EditState) -> Seq<char> {
    ",\"subtitle_safe_1_1\":"@ + (spec_cent_str(es.subtitle_safe_1_1_cent as nat) + spec_doc_from_24(es))
}

/// The document text from field 22 (`title_safe_1_1_cent`) on.
#[verifier::opaque]
pub open spec fn spec_doc_from_22(es: EditState) -> Seq<char> {
    ",\"title_safe_1_1\":"@ + (spec_cent_str(es.title_safe_1_1_cent as nat) + spec_doc_from_23(es))
}

/// The document text from field 21 (`subtitle_safe_16_9_cent`) on.
#[verifier::opaque]
pub open spec fn spec_doc_from_21(es: EditState) -> Seq<char> {
    ",\"subtitle_safe_16_9\":"@ + (spec_cent_str(es.subtitle_safe_16_9_cent as nat) + spec_doc_from_22(es))
}

/// The document text from field 20 (`title_safe_16_9_cent`) on.
#[verifier::opaque]
pub open spec fn spec_doc_from_20(es: EditState) -> Seq<char> {
    ",\"title_safe_16_9\":"@ + (spec_cent_str(es.title_safe_16_9_cent as nat) + spec_doc_from_21(es))
}

/// The document text from field 19 (`mode_9_16`) on.
#[verifier::opaque]
pub open spec fn spec_doc_from_19(es: EditState) -> Seq<char> {
    ",\"mode_9_16\":\""@ + (spec_mode_word(es.mode_9_16) + ("\""@ + spec_doc_from_20(es)))
}

/// The document text from field 18 (`mode_1_1`) on.
#[verifier::opaque]
pub open spec fn spec_doc_from_18(es: EditState) -> Seq<char> {
    ",\"mode_1_1\":\""@ + (spec_mode_word(es.mode_1_1) + ("\""@ + spec_doc_from_19(es)))
}

/// The document text from field 17 (`mode_16_9`) on.
#[verifier::opaque]
pub open spec fn spec_doc_from_17(es: EditState) -> Seq<char> {
    ",\"mode_16_9\":\""@ + (spec_mode_word(es.mode_16_9) + ("\""@ + spec_doc_from_18(es)))
}

/// The document text from field 16 (`portrait_bottom_ratio_cent`) on.
#[verifier::opaque]
pub open spec fn spec_doc_from_16(es: EditState) -> Seq<char> {
    ",\"portrait_bottom_ratio\":"@ + (spec_cent_str(es.portrait_bottom_ratio_cent as nat) + spec_doc_from_17(es))
}

/// The document text from field 15 (`portrait_split`) on.
#[verifier::opaque]
pub open spec fn spec_doc_from_15(es: EditState) -> Seq<char> {
    ",\"portrait_split\":"@ + (spec_bool_word(es.portrait_split) + spec_doc_from_16(es))
}

/// The document text from field 14 (`shrink_9_16_cent`) on.
#[verifier::opaque]
pub open spec fn spec_doc_from_14(es: EditState) -> Seq<char> {
    ",\"shrink_9_16\":"@ + (spec_cent_str(es.shrink_9_16_cent as nat) + spec_doc_from_15(es))
}

/// The document text from field 13 (`shrink_1_1_cent`) on.
#[verifier::opaque]
pub open spec fn spec_doc_from_13(es: EditState) -> Seq<char> {
    ",\"shrink_1_1\":"@ + (spec_cent_str(es.shrink_1_1_cent as nat) + spec_doc_from_14(es))
}

/// The document text from field 12 (`shrink_16_9_cent`) on.
#[verifier::opaque]
pub open spec fn spec_doc_from_12(es: EditState) -> Seq<char> {
    ",\"shrink_16_9\":"@ + (spec_cent_str(es.shrink_16_9_cent as nat) + spec_doc_from_13(es))
}

/// The document text from field 11 (`camera_position`) on.
#[verifier::opaque]
pub open spec fn spec_doc_from_11(es: EditState) -> Seq<char> {
    ",\"camera_position\":\""@ + (spec_pos_word(es.camera_position) + ("\""@ + spec_doc_from_12(es)))
}

/// The document text from field 10 (`background_preset`) on.
#[verifier::opaque]
pub open spec fn spec_doc_from_10(es: EditState) -> Seq<char> {
    ",\"background_preset\":"@ + (spec_u64_str(es.background_preset as nat) + spec_doc_from_11(es))
}

/// The document text from field 9 (`background_type`) on.
#[verifier::opaque]
pub open spec fn spec_doc_from_9(es: EditState) -> Seq<char> {
    ",\"background_type\":\""@ + (spec_bg_word(es.background_type) + ("\""@ + spec_doc_from_10(es)))
}

/// The document text from field 8 (`camera_blur`) on.
#[verifier::opaque]
pub open spec fn spec_doc_from_8(es: EditState) -> Seq<char> {
    ",\"camera_blur\":"@ + (spec_bool_word(es.camera_blur) + spec_doc_from_9(es))
}

/// The document text from field 7 (`camera_mirror`) on.
#[verifier::opaque]
pub open spec fn spec_doc_from_7(es: EditState) -> Seq<char> {
    ",\"camera_mirror\":"@ + (spec_bool_word(es.camera_mirror) + spec_doc_from_8(es))
}

/// The document text from field 6 (`camera_shadow`) on.
#[verifier::opaque]
pub open spec fn spec_doc_from_6(es: EditState) -> Seq<char> {
    ",\"camera_shadow\":"@ + (spec_u64_str(es.camera_shadow as nat) + spec_doc_from_7(es))
}

/// The document text from field 5 (`camera_shape`) on.
#[verifier::opaque]
pub open spec fn spec_doc_from_5(es: EditState) -> Seq<char> {
    ",\"camera_shape\":\""@ + (spec_shape_word(es.camera_shape) + ("\""@ + spec_doc_from_6(es)))
}

/// The document text from field 4 (`camera_size`) on.
#[verifier::opaque]
pub open spec fn spec_doc_from_4(es: EditState) -> Seq<char> {
    ",\"camera_size\":"@ + (spec_u64_str(es.camera_size as nat) + spec_doc_from_5(es))
}

/// The document text from field 3 (`shadow`) on.
#[verifier::opaque]
pub open spec fn spec_doc_from_3(es: EditState) -> Seq<char> {
    ",\"shadow\":"@ + (spec_u64_str(es.shadow as nat) + spec_doc_from_4(es))
}

/// The document text from field 2 (`radius`) on.
#[verifier::opaque]
pub open spec fn spec_doc_from_2(es: EditState) -> Seq<char> {
    ",\"radius\":"@ + (spec_u64_str(es.radius as nat) + spec_doc_from_3(es))
}

/// The document text from field 1 (`padding`) on.
#[verifier::opaque]
pub open spec fn spec_doc_from_1(es: EditState) -> Seq<char> {
    ",\"padding\":"@ + (spec_u64_str(es.padding as nat) + spec_doc_from_2(es))
}

/// The document text from field 0 (`aspect`) on.
#[verifier::opaque]
pub open spec fn spec_doc_from_0(es: EditState) -> Seq<char> {
    "{\"aspect\":\""@ + (spec_aspect_word(es.aspect) + ("\""@ + spec_doc_from_1(es)))
}

/// The aspect word as text.
fn aspect_str(a: Aspect) -> (r: &'static str)
    ensures
        r@ == spec_aspect_word(a),
{
    match a {
        Aspect::Ratio16x9 => "16:9",
        Aspect::Ratio1x1 => "1:1",
        Aspect::Ratio9x16 => "9:16",
    }
}

/// The camera shape word as text.
fn shape_str(s: CameraShape) -> (r: &'static str)
    ensures
        r@ == spec_shape_word(s),
{
    match s {
        CameraShape::Circle => "circle",
        CameraShape::Rounded => "rounded",
        CameraShape::Sharp => "sharp",
    }
}

/// The background type word as text.
fn bg_str(b: BackgroundType) -> (r: &'static str)
    ensures
        r@ == spec_bg_word(b),
{
    match b {
        BackgroundType::Gradient => "gradient",
        BackgroundType::Wallpaper => "wallpaper",
    }
}

/// The camera position word as text.
fn pos_str(p: CameraPosition) -> (r: &'static str)
    ensures
        r@ == spec_pos_word(p),
{
    match p {
        CameraPosition::TopLeft => "top_left",
        CameraPosition::TopRight => "top_right",
        CameraPosition::BottomLeft => "bottom_left",
        CameraPosition::BottomRight => "bottom_right",
    }
}

/// The layout mode word as text.
fn mode_str(m: LayoutMode) -> (r: &'static str)
    ensures
        r@ == spec_mode_word(m),
{
    match m {
        LayoutMode::Shrink => "shrink",
        LayoutMode::Split => "split",
    }
}

/// The boolean word as text.
fn bool_str(b: bool) -> (r: &'static str)
    ensures
        r@ == spec_bool_word(b),
{
    if b {
        "true"
    } else {
        "false"
    }
}

/// Saves an edit state as its document text.
#[verifier::rlimit(100)]
pub fn edit_state_to_json(es: &EditState) -> (r: String)
    ensures
        r@ == spec_edit_state_json(*es),
{
    let mut r = String::new();
    proof {
        reveal(spec_doc_upto_0);
        assert(r@ =~= spec_doc_upto_0(*es));
    }
    r.append("{\"aspect\":\"");
    r.append(aspect_str(es.aspect));
    r.append("\"");
    proof {
        reveal(spec_doc_upto_1);
        assert(r@ == spec_doc_upto_1(*es));
    }
    r.append(",\"padding\":");
    push_u64(&mut r, es.padding as u64);
    proof {
        reveal(spec_doc_upto_2);
        assert(r@ == spec_doc_upto_2(*es));
    }
    r.append(",\"radius\":");
    push_u64(&mut r, es.radius as u64);
    proof {
        reveal(spec_doc_upto_3);
        assert(r@ == spec_doc_upto_3(*es));
    }
    r.append(",\"shadow\":");
    push_u64(&mut r, es.shadow as u64);
    proof {
        reveal(spec_doc_upto_4);
        assert(r@ == spec_doc_upto_4(*es));
    }
    r.append(",\"camera_size\":");
    push_u64(&mut r, es.camera_size as u64);
    proof {
        reveal(spec_doc_upto_5);
        assert(r@ == spec_doc_upto_5(*es));
    }
    r.append(",\"camera_shape\":\"");
    r.append(shape_str(es.camera_shape));
    r.append("\"");
    proof {
        reveal(spec_doc_upto_6);
        assert(r@ == spec_doc_upto_6(*es));
    }
    r.append(",\"camera_shadow\":");
    push_u64(&mut r, es.camera_shadow as u64);
    proof {
        reveal(spec_doc_upto_7);
        assert(r@ == spec_doc_upto_7(*es));
    }
    r.append(",\"camera_mirror\":");
    r.append(bool_str(es.camera_mirror));
    proof {
        reveal(spec_doc_upto_8);
        assert(r@ == spec_doc_upto_8(*es));
    }
    r.append(",\"camera_blur\":");
    r.append(bool_str(es.camera_blur));
    proof {
        reveal(spec_doc_upto_9);
        assert(r@ == spec_doc_upto_9(*es));
    }
    r.append(",\"background_type\":\"");
    r.append(bg_str(es.background_type));
    r.append("\"");
    proof {
        reveal(spec_doc_upto_10);
        assert(r@ == spec_doc_upto_10(*es));
    }
    r.append(",\"background_preset\":");
    push_u64(&mut r, es.background_preset as u64);
    proof {
        reveal(spec_doc_upto_11);
        assert(r@ == spec_doc_upto_11(*es));
    }
    r.append(",\"camera_position\":\"");
    r.append(pos_str(es.camera_position));
    r.append("\"");
    proof {
        reveal(spec_doc_upto_12);
        assert(r@ == spec_doc_upto_12(*es));
    }
    r.append(",\"shrink_16_9\":");
    push_cent(&mut r, es.shrink_16_9_cent as u64);
    proof {
        reveal(spec_doc_upto_13);
        assert(r@ == spec_doc_upto_13(*es));
    }
    r.append(",\"shrink_1_1\":");
    push_cent(&mut r, es.shrink_1_1_cent as u64);
    proof {
        reveal(spec_doc_upto_14);
        assert(r@ == spec_doc_upto_14(*es));
    }
    r.append(",\"shrink_9_16\":");
    push_cent(&mut r, es.shrink_9_16_cent as u64);
    proof {
        reveal(spec_doc_upto_15);
        assert(r@ == spec_doc_upto_15(*es));
    }
    r.append(",\"portrait_split\":");
    r.append(bool_str(es.portrait_split));
    proof {
        reveal(spec_doc_upto_16);
        assert(r@ == spec_doc_upto_16(*es));
    }
    r.append(",\"portrait_bottom_ratio\":");
    push_cent(&mut r, es.portrait_bottom_ratio_cent as u64);
    proof {
        reveal(spec_doc_upto_17);
        assert(r@ == spec_doc_upto_17(*es));
    }
    r.append(",\"mode_16_9\":\"");
    r.append(mode_str(es.mode_16_9));
    r.append("\"");
    proof {
        reveal(spec_doc_upto_18);
        assert(r@ == spec_doc_upto_18(*es));
    }
    r.append(",\"mode_1_1\":\"");
    r.append(mode_str(es.mode_1_1));
    r.append("\"");
    proof {
        reveal(spec_doc_upto_19);
        assert(r@ == spec_doc_upto_19(*es));
    }
    r.append(",\"mode_9_16\":\"");
    r.append(mode_str(es.mode_9_16));
    r.append("\"");
    proof {
        reveal(spec_doc_upto_20);
        assert(r@ == spec_doc_upto_20(*es));
    }
    r.append(",\"title_safe_16_9\":");
    push_cent(&mut r, es.title_safe_16_9_cent as u64);
    proof {
        reveal(spec_doc_upto_21);
        assert(r@ == spec_doc_upto_21(*es));
    }
    r.append(",\"subtitle_safe_16_9\":");
    push_cent(&mut r, es.subtitle_safe_16_9_cent as u64);
    proof {
        reveal(spec_doc_upto_22);
        assert(r@ == spec_doc_upto_22(*es));
    }
    r.append(",\"title_safe_1_1\":");
    push_cent(&mut r, es.title_safe_1_1_cent as u64);
    proof {
        reveal(spec_doc_upto_23);
        assert(r@ == spec_doc_upto_23(*es));
    }
    r.append(",\"subtitle_safe_1_1\":");
    push_cent(&mut r, es.subtitle_safe_1_1_cent as u64);
    proof {
        reveal(spec_doc_upto_24);
        assert(r@ == spec_doc_upto_24(*es));
    }
    r.append(",\"title_safe_9_16\":");
    push_cent(&mut r, es.title_safe_9_16_cent as u64);
    proof {
        reveal(spec_doc_upto_25);
        assert(r@ == spec_doc_upto_25(*es));
    }
    r.append(",\"subtitle_safe_9_16\":");
    push_cent(&mut r, es.subtitle_safe_9_16_cent as u64);
    proof {
        reveal(spec_doc_upto_26);
        assert(r@ == spec_doc_upto_26(*es));
    }
    r.append("}");
    r
}

/// Whether the text continues with `lit` at `pos`: the position past it.
pub open spec fn spec_expect(text: Seq<char>, pos: int, lit: Seq<char>) -> Option<int> {
    if 0 <= pos && pos + lit.len() <= text.len() && text.subrange(pos, pos + lit.len()) == lit {
        Some(pos + lit.len())
    } else {
        None
    }
}

/// The length of the run of digits starting at `pos`.
pub open spec fn spec_digit_run(text: Seq<char>, pos: int) -> int
    decreases text.len() - pos,
{
    if pos < 0 || pos >= text.len() || !spec_is_digit(text[pos]) {
        0int
    } else {
        1 + spec_digit_run(text, pos + 1)
    }
}

/// An unsigned integer at `pos`: up to ten digits, fitting `u32`.
pub open spec fn spec_read_uint(text: Seq<char>, pos: int) -> Option<(nat, int)> {
    let run = spec_digit_run(text, pos);
    if run == 0 || run > 10 {
        None
    } else {
        let v = spec_digits_val(text.subrange(pos, pos + run));
        if v > 0xFFFFFFFF {
            None
        } else {
            Some((v, pos + run))
        }
    }
}

/// A decimal in hundredths at `pos`: an integer with an optional one- or
/// two-digit fraction.
pub open spec fn spec_read_cent(text: Seq<char>, pos: int) -> Option<(nat, int)> {
    match spec_read_uint(text, pos) {
        None => None,
        Some((ip, p1)) => {
            if ip > 10000000 {
                None
            } else if p1 >= text.len() || text[p1] != '.' {
                Some((ip * 100, p1))
            } else {
                match spec_read_uint(text, p1 + 1) {
                    None => None,
                    Some((fp, p2)) => {
                        let flen = p2 - (p1 + 1);
                        if flen == 1 && fp <= 99 {
                            Some((ip * 100 + fp * 10, p2))
                        } else if flen == 2 && fp <= 99 {
                            Some((ip * 100 + fp, p2))
                        } else {
                            None
                        }
                    },
                }
            }
        },
    }
}

/// A quoted word at `pos`: the text before the next quote, and the
/// position past that quote.
pub open spec fn spec_read_word(text: Seq<char>, pos: int) -> Option<(Seq<char>, int)> {
    match spec_char_from(text, '"', pos) {
        None => None,
        Some(q) => Some((text.subrange(pos, q), q + 1)),
    }
}

/// A `true` or `false` literal at `pos`.
pub open spec fn spec_read_bool(text: Seq<char>, pos: int) -> Option<(bool, int)> {
    match spec_expect(text, pos, "true"@) {
        Some(p) => Some((true, p)),
        None => match spec_expect(text, pos, "false"@) {
            Some(p) => Some((false, p)),
            None => None,
        },
    }
}

/// A quoted `Aspect` word at `pos`.
pub open spec fn spec_read_aspect(text: Seq<char>, pos: int) -> Option<(Aspect, int)> {
    match spec_read_word(text, pos) {
        None => None,
        Some((w, p)) => match spec_word_to_aspect(w) {
            None => None,
            Some(v) => Some((v, p)),
        },
    }
}

/// A quoted `CameraShape` word at `pos`.
pub open spec fn spec_read_shape(text: Seq<char>, pos: int) -> Option<(CameraShape, int)> {
    match spec_read_word(text, pos) {
        None => None,
        Some((w, p)) => match spec_word_to_shape(w) {
            None => None,
            Some(v) => Some((v, p)),
        },
    }
}

/// A quoted `BackgroundType` word at `pos`.
pub open spec fn spec_read_bg(text: Seq<char>, pos: int) -> Option<(BackgroundType, int)> {
    match spec_read_word(text, pos) {
        None => None,
        Some((w, p)) => match spec_word_to_bg(w) {
            None => None,
            Some(v) => Some((v, p)),
        },
    }
}

/// A quoted `CameraPosition` word at `pos`.
pub open spec fn spec_read_pos(text: Seq<char>, pos: int) -> Option<(CameraPosition, int)> {
    match spec_read_word(text, pos) {
        None => None,
        Some((w, p)) => match spec_word_to_pos(w) {
            None => None,
            Some(v) => Some((v, p)),
        },
    }
}

/// A quoted `LayoutMode` word at `pos`.
pub open spec fn spec_read_mode(text: Seq<char>, pos: int) -> Option<(LayoutMode, int)> {
    match spec_read_word(text, pos) {
        None => None,
        Some((w, p)) => match spec_word_to_mode(w) {
            None => None,
            Some(v) => Some((v, p)),
        },
    }
}

/// The parse of the document from the closing brace: it must end the text.
#[verifier::opaque]
pub open spec fn spec_parse_at_26(text: Seq<char>, pos: int, aspect: Aspect, padding: u32, radius: u32, shadow: u32, camera_size: u32, camera_shape: CameraShape, camera_shadow: u32, camera_mirror: bool, camera_blur: bool, background_type: BackgroundType, background_preset: u32, camera_position: CameraPosition, shrink_16_9_cent: u32, shrink_1_1_cent: u32, shrink_9_16_cent: u32, portrait_split: bool, portrait_bottom_ratio_cent: u32, mode_16_9: LayoutMode, mode_1_1: LayoutMode, mode_9_16: LayoutMode, title_safe_16_9_cent: u32, subtitle_safe_16_9_cent: u32, title_safe_1_1_cent: u32, subtitle_safe_1_1_cent: u32, title_safe_9_16_cent: u32, subtitle_safe_9_16_cent: u32) -> Option<EditState> {
    match spec_expect(text, pos, "}"@) {
        None => None,
        Some(p) => {
            if p == text.len() {
                Some(EditState {
                    aspect,
                    padding,
                    radius,
                    shadow,
                    camera_size,
                    camera_shape,
                    camera_shadow,
                    camera_mirror,
                    camera_blur,
                    background_type,
                    background_preset,
                    camera_position,
                    shrink_16_9_cent,
                    shrink_1_1_cent,
                    shrink_9_16_cent,
                    portrait_split,
                    portrait_bottom_ratio_cent,
                    mode_16_9,
                    mode_1_1,
                    mode_9_16,
                    title_safe_16_9_cent,
                    subtitle_safe_16_9_cent,
                    title_safe_1_1_cent,
                    subtitle_safe_1_1_cent,
                    title_safe_9_16_cent,
                    subtitle_safe_9_16_cent,
                })
            } else {
                None
            }
        },
    }
}

/// The parse of the document from field 25 (`subtitle_safe_9_16_cent`) on.
#[verifier::opaque]
pub open spec fn spec_parse_at_25(text: Seq<char>, pos: int, aspect: Aspect, padding: u32, radius: u32, shadow: u32, camera_size: u32, camera_shape: CameraShape, camera_shadow: u32, camera_mirror: bool, camera_blur: bool, background_type: BackgroundType, background_preset: u32, camera_position: CameraPosition, shrink_16_9_cent: u32, shrink_1_1_cent: u32, shrink_9_16_cent: u32, portrait_split: bool, portrait_bottom_ratio_cent: u32, mode_16_9: LayoutMode, mode_1_1: LayoutMode, mode_9_16: LayoutMode, title_safe_16_9_cent: u32, subtitle_safe_16_9_cent: u32, title_safe_1_1_cent: u32, subtitle_safe_1_1_cent: u32, title_safe_9_16_cent: u32) -> Option<EditState> {
    match spec_expect(text, pos, ",\"subtitle_safe_9_16\":"@) {
        None => None,
        Some(p) => {
            match spec_read_cent(text, p) {
                None => None,
                Some((v, p2)) => spec_parse_at_26(text, p2, aspect, padding, radius, shadow, camera_size, camera_shape, camera_shadow, camera_mirror, camera_blur, background_type, background_preset, camera_position, shrink_16_9_cent, shrink_1_1_cent, shrink_9_16_cent, portrait_split, portrait_bottom_ratio_cent, mode_16_9, mode_1_1, mode_9_16, title_safe_16_9_cent, subtitle_safe_16_9_cent, title_safe_1_1_cent, subtitle_safe_1_1_cent, title_safe_9_16_cent, (v as u32)),
            }
        },
    }
}

/// The parse of the document from field 24 (`title_safe_9_16_cent`) on.
#[verifier::opaque]
pub open spec fn spec_parse_at_24(text: Seq<char>, pos: int, aspect: Aspect, padding: u32, radius: u32, shadow: u32, camera_size: u32, camera_shape: CameraShape, camera_shadow: u32, camera_mirror: bool, camera_blur: bool, background_type: BackgroundType, background_preset: u32, camera_position: CameraPosition, shrink_16_9_cent: u32, shrink_1_1_cent: u32, shrink_9_16_cent: u32, portrait_split: bool, portrait_bottom_ratio_cent: u32, mode_16_9: LayoutMode, mode_1_1: LayoutMode, mode_9_16: LayoutMode, title_safe_16_9_cent: u32, subtitle_safe_16_9_cent: u32, title_safe_1_1_cent: u32, subtitle_safe_1_1_cent: u32) -> Option<EditState> {
    match spec_expect(text, pos, ",\"title_safe_9_16\":"@) {
        None => None,
        Some(p) => {
            match spec_read_cent(text, p) {
                None => None,
                Some((v, p2)) => spec_parse_at_25(text, p2, aspect, padding, radius, shadow, camera_size, camera_shape, camera_shadow, camera_mirror, camera_blur, background_type, background_preset, camera_position, shrink_16_9_cent, shrink_1_1_cent, shrink_9_16_cent, portrait_split, portrait_bottom_ratio_cent, mode_16_9, mode_1_1, mode_9_16, title_safe_16_9_cent, subtitle_safe_16_9_cent, title_safe_1_1_cent, subtitle_safe_1_1_cent, (v as u32)),
            }
        },
    }
}

/// The parse of the document from field 23 (`subtitle_safe_1_1_cent`) on.
#[verifier::opaque]
pub open spec fn spec_parse_at_23(text: Seq<char>, pos: int, aspect: Aspect, padding: u32, radius: u32, shadow: u32, camera_size: u32, camera_shape: CameraShape, camera_shadow: u32, camera_mirror: bool, camera_blur: bool, background_type: BackgroundType, background_preset: u32, camera_position: CameraPosition, shrink_16_9_cent: u32, shrink_1_1_cent: u32, shrink_9_16_cent: u32, portrait_split: bool, portrait_bottom_ratio_cent: u32, mode_16_9: LayoutMode, mode_1_1: LayoutMode, mode_9_16: LayoutMode, title_safe_16_9_cent: u32, subtitle_safe_16_9_cent: u32, title_safe_1_1_cent: u32) -> Option<EditState> {
    match spec_expect(text, pos, ",\"subtitle_safe_1_1\":"@) {
        None => None,
        Some(p) => {
            match spec_read_cent(text, p) {
                None => None,
                Some((v, p2)) => spec_parse_at_24(text, p2, aspect, padding, radius, shadow, camera_size, camera_shape, camera_shadow, camera_mirror, camera_blur, background_type, background_preset, camera_position, shrink_16_9_cent, shrink_1_1_cent, shrink_9_16_cent, portrait_split, portrait_bottom_ratio_cent, mode_16_9, mode_1_1, mode_9_16, title_safe_16_9_cent, subtitle_safe_16_9_cent, title_safe_1_1_cent, (v as u32)),
            }
        },
    }
}

/// The parse of the document from field 22 (`title_safe_1_1_cent`) on.
#[verifier::opaque]
pub open spec fn spec_parse_at_22(text: Seq<char>, pos: int, aspect: Aspect, padding: u32, radius: u32, shadow: u32, camera_size: u32, camera_shape: CameraShape, camera_shadow: u32, camera_mirror: bool, camera_blur: bool, background_type: BackgroundType, background_preset: u32, camera_position: CameraPosition, shrink_16_9_cent: u32, shrink_1_1_cent: u32, shrink_9_16_cent: u32, portrait_split: bool, portrait_bottom_ratio_cent: u32, mode_16_9: LayoutMode, mode_1_1: LayoutMode, mode_9_16: LayoutMode, title_safe_16_9_cent: u32, subtitle_safe_16_9_cent: u32) -> Option<EditState> {
    match spec_expect(text, pos, ",\"title_safe_1_1\":"@) {
        None => None,
        Some(p) => {
            match spec_read_cent(text, p) {
                None => None,
                Some((v, p2)) => spec_parse_at_23(text, p2, aspect, padding, radius, shadow, camera_size, camera_shape, camera_shadow, camera_mirror, camera_blur, background_type, background_preset, camera_position, shrink_16_9_cent, shrink_1_1_cent, shrink_9_16_cent, portrait_split, portrait_bottom_ratio_cent, mode_16_9, mode_1_1, mode_9_16, title_safe_16_9_cent, subtitle_safe_16_9_cent, (v as u32)),
            }
        },
    }
}

/// The parse of the document from field 21 (`subtitle_safe_16_9_cent`) on.
#[verifier::opaque]
pub open spec fn spec_parse_at_21(text: Seq<char>, pos: int, aspect: Aspect, padding: u32, radius: u32, shadow: u32, camera_size: u32, camera_shape: CameraShape, camera_shadow: u32, camera_mirror: bool, camera_blur: bool, background_type: BackgroundType, background_preset: u32, camera_position: CameraPosition, shrink_16_9_cent: u32, shrink_1_1_cent: u32, shrink_9_16_cent: u32, portrait_split: bool, portrait_bottom_ratio_cent: u32, mode_16_9: LayoutMode, mode_1_1: LayoutMode, mode_9_16: LayoutMode, title_safe_16_9_cent: u32) -> Option<EditState> {
    match spec_expect(text, pos, ",\"subtitle_safe_16_9\":"@) {
        None => None,
        Some(p) => {
            match spec_read_cent(text, p) {
                None => None,
                Some((v, p2)) => spec_parse_at_22(text, p2, aspect, padding, radius, shadow, camera_size, camera_shape, camera_shadow, camera_mirror, camera_blur, background_type, background_preset, camera_position, shrink_16_9_cent, shrink_1_1_cent, shrink_9_16_cent, portrait_split, portrait_bottom_ratio_cent, mode_16_9, mode_1_1, mode_9_16, title_safe_16_9_cent, (v as u32)),
            }
        },
    }
}

/// The parse of the document from field 20 (`title_safe_16_9_cent`) on.
#[verifier::opaque]
pub open spec fn spec_parse_at_20(text: Seq<char>, pos: int, aspect: Aspect, padding: u32, radius: u32, shadow: u32, camera_size: u32, camera_shape: CameraShape, camera_shadow: u32, camera_mirror: bool, camera_blur: bool, background_type: BackgroundType, background_preset: u32, camera_position: CameraPosition, shrink_16_9_cent: u32, shrink_1_1_cent: u32, shrink_9_16_cent: u32, portrait_split: bool, portrait_bottom_ratio_cent: u32, mode_16_9: LayoutMode, mode_1_1: LayoutMode, mode_9_16: LayoutMode) -> Option<EditState> {
    match spec_expect(text, pos, ",\"title_safe_16_9\":"@) {
        None => None,
        Some(p) => {
            match spec_read_cent(text, p) {
                None => None,
                Some((v, p2)) => spec_parse_at_21(text, p2, aspect, padding, radius, shadow, camera_size, camera_shape, camera_shadow, camera_mirror, camera_blur, background_type, background_preset, camera_position, shrink_16_9_cent, shrink_1_1_cent, shrink_9_16_cent, portrait_split, portrait_bottom_ratio_cent, mode_16_9, mode_1_1, mode_9_16, (v as u32)),
            }
        },
    }
}

/// The parse of the document from field 19 (`mode_9_16`) on.
#[verifier::opaque]
pub open spec fn spec_parse_at_19(text: Seq<char>, pos: int, aspect: Aspect, padding: u32, radius: u32, shadow: u32, camera_size: u32, camera_shape: CameraShape, camera_shadow: u32, camera_mirror: bool, camera_blur: bool, background_type: BackgroundType, background_preset: u32, camera_position: CameraPosition, shrink_16_9_cent: u32, shrink_1_1_cent: u32, shrink_9_16_cent: u32, portrait_split: bool, portrait_bottom_ratio_cent: u32, mode_16_9: LayoutMode, mode_1_1: LayoutMode) -> Option<EditState> {
    match spec_expect(text, pos, ",\"mode_9_16\":\""@) {
        None => None,
        Some(p) => {
            match spec_read_mode(text, p) {
                None => None,
                Some((v, p2)) => spec_parse_at_20(text, p2, aspect, padding, radius, shadow, camera_size, camera_shape, camera_shadow, camera_mirror, camera_blur, background_type, background_preset, camera_position, shrink_16_9_cent, shrink_1_1_cent, shrink_9_16_cent, portrait_split, portrait_bottom_ratio_cent, mode_16_9, mode_1_1, v),
            }
        },
    }
}

/// The parse of the document from field 18 (`mode_1_1`) on.
#[verifier::opaque]
pub open spec fn spec_parse_at_18(text: Seq<char>, pos: int, aspect: Aspect, padding: u32, radius: u32, shadow: u32, camera_size: u32, camera_shape: CameraShape, camera_shadow: u32, camera_mirror: bool, camera_blur: bool, background_type: BackgroundType, background_preset: u32, camera_position: CameraPosition, shrink_16_9_cent: u32, shrink_1_1_cent: u32, shrink_9_16_cent: u32, portrait_split: bool, portrait_bottom_ratio_cent: u32, mode_16_9: LayoutMode) -> Option<EditState> {
    match spec_expect(text, pos, ",\"mode_1_1\":\""@) {
        None => None,
        Some(p) => {
            match spec_read_mode(text, p) {
                None => None,
                Some((v, p2)) => spec_parse_at_19(text, p2, aspect, padding, radius, shadow, camera_size, camera_shape, camera_shadow, camera_mirror, camera_blur, background_type, background_preset, camera_position, shrink_16_9_cent, shrink_1_1_cent, shrink_9_16_cent, portrait_split, portrait_bottom_ratio_cent, mode_16_9, v),
            }
        },
    }
}

/// The parse of the document from field 17 (`mode_16_9`) on.
#[verifier::opaque]
pub open spec fn spec_parse_at_17(text: Seq<char>, pos: int, aspect: Aspect, padding: u32, radius: u32, shadow: u32, camera_size: u32, camera_shape: CameraShape, camera_shadow: u32, camera_mirror: bool, camera_blur: bool, background_type: BackgroundType, background_preset: u32, camera_position: CameraPosition, shrink_16_9_cent: u32, shrink_1_1_cent: u32, shrink_9_16_cent: u32, portrait_split: bool, portrait_bottom_ratio_cent: u32) -> Option<EditState> {
    match spec_expect(text, pos, ",\"mode_16_9\":\""@) {
        None => None,
        Some(p) => {
            match spec_read_mode(text, p) {
                None => None,
                Some((v, p2)) => spec_parse_at_18(text, p2, aspect, padding, radius, shadow, camera_size, camera_shape, camera_shadow, camera_mirror, camera_blur, background_type, background_preset, camera_position, shrink_16_9_cent, shrink_1_1_cent, shrink_9_16_cent, portrait_split, portrait_bottom_ratio_cent, v),
            }
        },
    }
}

/// The parse of the document from field 16 (`portrait_bottom_ratio_cent`) on.
#[verifier::opaque]
pub open spec fn spec_parse_at_16(text: Seq<char>, pos: int, aspect: Aspect, padding: u32, radius: u32, shadow: u32, camera_size: u32, camera_shape: CameraShape, camera_shadow: u32, camera_mirror: bool, camera_blur: bool, background_type: BackgroundType, background_preset: u32, camera_position: CameraPosition, shrink_16_9_cent: u32, shrink_1_1_cent: u32, shrink_9_16_cent: u32, portrait_split: bool) -> Option<EditState> {
    match spec_expect(text, pos, ",\"portrait_bottom_ratio\":"@) {
        None => None,
        Some(p) => {
            match spec_read_cent(text, p) {
                None => None,
                Some((v, p2)) => spec_parse_at_17(text, p2, aspect, padding, radius, shadow, camera_size, camera_shape, camera_shadow, camera_mirror, camera_blur, background_type, background_preset, camera_position, shrink_16_9_cent, shrink_1_1_cent, shrink_9_16_cent, portrait_split, (v as u32)),
            }
        },
    }
}

/// The parse of the document from field 15 (`portrait_split`) on.
#[verifier::opaque]
pub open spec fn spec_parse_at_15(text: Seq<char>, pos: int, aspect: Aspect, padding: u32, radius: u32, shadow: u32, camera_size: u32, camera_shape: CameraShape, camera_shadow: u32, camera_mirror: bool, camera_blur: bool, background_type: BackgroundType, background_preset: u32, camera_position: CameraPosition, shrink_16_9_cent: u32, shrink_1_1_cent: u32, shrink_9_16_cent: u32) -> Option<EditState> {
    match spec_expect(text, pos, ",\"portrait_split\":"@) {
        None => None,
        Some(p) => {
            match spec_read_bool(text, p) {
                None => None,
                Some((v, p2)) => spec_parse_at_16(text, p2, aspect, padding, radius, shadow, camera_size, camera_shape, camera_shadow, camera_mirror, camera_blur, background_type, background_preset, camera_position, shrink_16_9_cent, shrink_1_1_cent, shrink_9_16_cent, v),
            }
        },
    }
}

/// The parse of the document from field 14 (`shrink_9_16_cent`) on.
#[verifier::opaque]
pub open spec fn spec_parse_at_14(text: Seq<char>, pos: int, aspect: Aspect, padding: u32, radius: u32, shadow: u32, camera_size: u32, camera_shape: CameraShape, camera_shadow: u32, camera_mirror: bool, camera_blur: bool, background_type: BackgroundType, background_preset: u32, camera_position: CameraPosition, shrink_16_9_cent: u32, shrink_1_1_cent: u32) -> Option<EditState> {
    match spec_expect(text, pos, ",\"shrink_9_16\":"@) {
        None => None,
        Some(p) => {
            match spec_read_cent(text, p) {
                None => None,
                Some((v, p2)) => spec_parse_at_15(text, p2, aspect, padding, radius, shadow, camera_size, camera_shape, camera_shadow, camera_mirror, camera_blur, background_type, background_preset, camera_position, shrink_16_9_cent, shrink_1_1_cent, (v as u32)),
            }
        },
    }
}

/// The parse of the document from field 13 (`shrink_1_1_cent`) on.
#[verifier::opaque]
pub open spec fn spec_parse_at_13(text: Seq<char>, pos: int, aspect: Aspect, padding: u32, radius: u32, shadow: u32, camera_size: u32, camera_shape: CameraShape, camera_shadow: u32, camera_mirror: bool, camera_blur: bool, background_type: BackgroundType, background_preset: u32, camera_position: CameraPosition, shrink_16_9_cent: u32) -> Option<EditState> {
    match spec_expect(text, pos, ",\"shrink_1_1\":"@) {
        None => None,
        Some(p) => {
            match spec_read_cent(text, p) {
                None => None,
                Some((v, p2)) => spec_parse_at_14(text, p2, aspect, padding, radius, shadow, camera_size, camera_shape, camera_shadow, camera_mirror, camera_blur, background_type, background_preset, camera_position, shrink_16_9_cent, (v as u32)),
            }
        },
    }
}

/// The parse of the document from field 12 (`shrink_16_9_cent`) on.
#[verifier::opaque]
pub open spec fn spec_parse_at_12(text: Seq<char>, pos: int, aspect: Aspect, padding: u32, radius: u32, shadow: u32, camera_size: u32, camera_shape: CameraShape, camera_shadow: u32, camera_mirror: bool, camera_blur: bool, background_type: BackgroundType, background_preset: u32, camera_position: CameraPosition) -> Option<EditState> {
    match spec_expect(text, pos, ",\"shrink_16_9\":"@) {
        None => None,
        Some(p) => {
            match spec_read_cent(text, p) {
                None => None,
                Some((v, p2)) => spec_parse_at_13(text, p2, aspect, padding, radius, shadow, camera_size, camera_shape, camera_shadow, camera_mirror, camera_blur, background_type, background_preset, camera_position, (v as u32)),
            }
        },
    }
}

/// The parse of the document from field 11 (`camera_position`) on.
#[verifier::opaque]
pub open spec fn spec_parse_at_11(text: Seq<char>, pos: int, aspect: Aspect, padding: u32, radius: u32, shadow: u32, camera_size: u32, camera_shape: CameraShape, camera_shadow: u32, camera_mirror: bool, camera_blur: bool, background_type: BackgroundType, background_preset: u32) -> Option<EditState> {
    match spec_expect(text, pos, ",\"camera_position\":\""@) {
        None => None,
        Some(p) => {
            match spec_read_pos(text, p) {
                None => None,
                Some((v, p2)) => spec_parse_at_12(text, p2, aspect, padding, radius, shadow, camera_size, camera_shape, camera_shadow, camera_mirror, camera_blur, background_type, background_preset, v),
            }
        },
    }
}

/// The parse of the document from field 10 (`background_preset`) on.
#[verifier::opaque]
pub open spec fn spec_parse_at_10(text: Seq<char>, pos: int, aspect: Aspect, padding: u32, radius: u32, shadow: u32, camera_size: u32, camera_shape: CameraShape, camera_shadow: u32, camera_mirror: bool, camera_blur: bool, background_type: BackgroundType) -> Option<EditState> {
    match spec_expect(text, pos, ",\"background_preset\":"@) {
        None => None,
        Some(p) => {
            match spec_read_uint(text, p) {
                None => None,
                Some((v, p2)) => spec_parse_at_11(text, p2, aspect, padding, radius, shadow, camera_size, camera_shape, camera_shadow, camera_mirror, camera_blur, background_type, (v as u32)),
            }
        },
    }
}

/// The parse of the document from field 9 (`background_type`) on.
#[verifier::opaque]
pub open spec fn spec_parse_at_9(text: Seq<char>, pos: int, aspect: Aspect, padding: u32, radius: u32, shadow: u32, camera_size: u32, camera_shape: CameraShape, camera_shadow: u32, camera_mirror: bool, camera_blur: bool) -> Option<EditState> {
    match spec_expect(text, pos, ",\"background_type\":\""@) {
        None => None,
        Some(p) => {
            match spec_read_bg(text, p) {
                None => None,
                Some((v, p2)) => spec_parse_at_10(text, p2, aspect, padding, radius, shadow, camera_size, camera_shape, camera_shadow, camera_mirror, camera_blur, v),
            }
        },
    }
}

/// The parse of the document from field 8 (`camera_blur`) on.
#[verifier::opaque]
pub open spec fn spec_parse_at_8(text: Seq<char>, pos: int, aspect: Aspect, padding: u32, radius: u32, shadow: u32, camera_size: u32, camera_shape: CameraShape, camera_shadow: u32, camera_mirror: bool) -> Option<EditState> {
    match spec_expect(text, pos, ",\"camera_blur\":"@) {
        None => None,
        Some(p) => {
            match spec_read_bool(text, p) {
                None => None,
                Some((v, p2)) => spec_parse_at_9(text, p2, aspect, padding, radius, shadow, camera_size, camera_shape, camera_shadow, camera_mirror, v),
            }
        },
    }
}

/// The parse of the document from field 7 (`camera_mirror`) on.
#[verifier::opaque]
pub open spec fn spec_parse_at_7(text: Seq<char>, pos: int, aspect: Aspect, padding: u32, radius: u32, shadow: u32, camera_size: u32, camera_shape: CameraShape, camera_shadow: u32) -> Option<EditState> {
    match spec_expect(text, pos, ",\"camera_mirror\":"@) {
        None => None,
        Some(p) => {
            match spec_read_bool(text, p) {
                None => None,
                Some((v, p2)) => spec_parse_at_8(text, p2, aspect, padding, radius, shadow, camera_size, camera_shape, camera_shadow, v),
            }
        },
    }
}

/// The parse of the document from field 6 (`camera_shadow`) on.
#[verifier::opaque]
pub open spec fn spec_parse_at_6(text: Seq<char>, pos: int, aspect: Aspect, padding: u32, radius: u32, shadow: u32, camera_size: u32, camera_shape: CameraShape) -> Option<EditState> {
    match spec_expect(text, pos, ",\"camera_shadow\":"@) {
        None => None,
        Some(p) => {
            match spec_read_uint(text, p) {
                None => None,
                Some((v, p2)) => spec_parse_at_7(text, p2, aspect, padding, radius, shadow, camera_size, camera_shape, (v as u32)),
            }
        },
    }
}

/// The parse of the document from field 5 (`camera_shape`) on.
#[verifier::opaque]
pub open spec fn spec_parse_at_5(text: Seq<char>, pos: int, aspect: Aspect, padding: u32, radius: u32, shadow: u32, camera_size: u32) -> Option<EditState> {
    match spec_expect(text, pos, ",\"camera_shape\":\""@) {
        None => None,
        Some(p) => {
            match spec_read_shape(text, p) {
                None => None,
                Some((v, p2)) => spec_parse_at_6(text, p2, aspect, padding, radius, shadow, camera_size, v),
            }
        },
    }
}

/// The parse of the document from field 4 (`camera_size`) on.
#[verifier::opaque]
pub open spec fn spec_parse_at_4(text: Seq<char>, pos: int, aspect: Aspect, padding: u32, radius: u32, shadow: u32) -> Option<EditState> {
    match spec_expect(text, pos, ",\"camera_size\":"@) {
        None => None,
        Some(p) => {
            match spec_read_uint(text, p) {
                None => None,
                Some((v, p2)) => spec_parse_at_5(text, p2, aspect, padding, radius, shadow, (v as u32)),
            }
        },
    }
}

/// The parse of the document from field 3 (`shadow`) on.
#[verifier::opaque]
pub open spec fn spec_parse_at_3(text: Seq<char>, pos: int, aspect: Aspect, padding: u32, radius: u32) -> Option<EditState> {
    match spec_expect(text, pos, ",\"shadow\":"@) {
        None => None,
        Some(p) => {
            match spec_read_uint(text, p) {
                None => None,
                Some((v, p2)) => spec_parse_at_4(text, p2, aspect, padding, radius, (v as u32)),
            }
        },
    }
}

/// The parse of the document from field 2 (`radius`) on.
#[verifier::opaque]
pub open spec fn spec_parse_at_2(text: Seq<char>, pos: int, aspect: Aspect, padding: u32) -> Option<EditState> {
    match spec_expect(text, pos, ",\"radius\":"@) {
        None => None,
        Some(p) => {
            match spec_read_uint(text, p) {
                None => None,
                Some((v, p2)) => spec_parse_at_3(text, p2, aspect, padding, (v as u32)),
            }
        },
    }
}

/// The parse of the document from field 1 (`padding`) on.
#[verifier::opaque]
pub open spec fn spec_parse_at_1(text: Seq<char>, pos: int, aspect: Aspect) -> Option<EditState> {
    match spec_expect(text, pos, ",\"padding\":"@) {
        None => None,
        Some(p) => {
            match spec_read_uint(text, p) {
                None => None,
                Some((v, p2)) => spec_parse_at_2(text, p2, aspect, (v as u32)),
            }
        },
    }
}

/// The parse of the document from field 0 (`aspect`) on.
#[verifier::opaque]
pub open spec fn spec_parse_at_0(text: Seq<char>, pos: int) -> Option<EditState> {
    match spec_expect(text, pos, "{\"aspect\":\""@) {
        None => None,
        Some(p) => {
            match spec_read_aspect(text, p) {
                None => None,
                Some((v, p2)) => spec_parse_at_1(text, p2, v),
            }
        },
    }
}

/// The parse of a whole document.
pub open spec fn spec_parse_edit_state(text: Seq<char>) -> Option<EditState> {
    spec_parse_at_0(text, 0)
}

/// Peeling one piece off a decomposed tail: the piece sits at `pos` and
/// the rest follows it.
proof fn lemma_step(text: Seq<char>, pos: int, piece: Seq<char>, rest: Seq<char>)
    requires
        0 <= pos <= text.len(),
        text.skip(pos) == piece + rest,
    ensures
        pos + piece.len() <= text.len(),
        text.subrange(pos, pos + piece.len()) == piece,
        text.skip(pos + piece.len()) == rest,
{
    assert(text.skip(pos).len() == text.len() - pos);
    assert forall|i: int|
        0 <= i < piece.len() implies text.subrange(pos, pos + piece.len())[i] == piece[i] by {
        assert(text.subrange(pos, pos + piece.len())[i] == text[pos + i]);
        assert(text.skip(pos)[i] == text[pos + i]);
        assert(text.skip(pos)[i] == (piece + rest)[i]);
        assert((piece + rest)[i] == piece[i]);
    }
    assert(text.subrange(pos, pos + piece.len()) =~= piece);
    assert forall|i: int|
        0 <= i < rest.len() implies text.skip(pos + piece.len())[i] == rest[i] by {
        assert(text.skip(pos + piece.len())[i] == text[pos + piece.len() + i]);
        assert(text.skip(pos)[piece.len() + i] == text[pos + piece.len() + i]);
        assert(text.skip(pos)[piece.len() + i] == (piece + rest)[piece.len() + i]);
        assert((piece + rest)[piece.len() + i] == rest[i]);
    }
    assert(text.skip(pos + piece.len()) =~= rest);
}

/// A digit run is never negative.
proof fn lemma_digit_run_nonneg(text: Seq<char>, pos: int)
    ensures
        spec_digit_run(text, pos) >= 0,
    decreases text.len() - pos,
{
    if !(pos < 0 || pos >= text.len() || !spec_is_digit(text[pos])) {
        lemma_digit_run_nonneg(text, pos + 1);
    }
}

/// A digit sequence followed by a non-digit pins the digit run's length.
proof fn lemma_digit_run_of(text: Seq<char>, pos: int, ds: Seq<char>, rest: Seq<char>)
    requires
        0 <= pos <= text.len(),
        text.skip(pos) == ds + rest,
        spec_all_digits(ds),
        rest.len() == 0 || !spec_is_digit(rest[0]),
    ensures
        spec_digit_run(text, pos) == ds.len(),
    decreases ds.len(),
{
    assert(text.skip(pos).len() == text.len() - pos);
    if ds.len() == 0 {
        if pos < text.len() {
            assert(text.skip(pos)[0] == text[pos]);
            assert(text.skip(pos)[0] == rest[0]);
            assert(!spec_is_digit(text[pos]));
        }
        assert(spec_digit_run(text, pos) == 0);
    } else {
        assert(text.skip(pos)[0] == text[pos]);
        assert(text.skip(pos)[0] == ds[0]);
        assert(spec_is_digit(ds[0]));
        assert(text.skip(pos) =~= seq![ds[0]] + (ds.drop_first() + rest));
        lemma_step(text, pos, seq![ds[0]], ds.drop_first() + rest);
        assert(text.skip(pos + 1) == ds.drop_first() + rest);
        assert(spec_all_digits(ds.drop_first())) by {
            assert(forall|i: int|
                0 <= i < ds.drop_first().len() ==> #[trigger] ds.drop_first()[i] == ds[i + 1]);
        }
        lemma_digit_run_of(text, pos + 1, ds.drop_first(), rest);
        assert(spec_digit_run(text, pos) == 1 + spec_digit_run(text, pos + 1));
    }
}

/// The decimal digits of `n` are digits, non-empty, and evaluate back
/// to `n`.
proof fn lemma_u64_str_digits(n: nat)
    ensures
        spec_all_digits(spec_u64_str(n)),
        spec_u64_str(n).len() >= 1,
        spec_digits_val(spec_u64_str(n)) == n,
    decreases n,
{
    if n < 10 {
        assert(spec_u64_str(n) =~= seq![digit_char(n as int)]);
        assert(spec_is_digit(digit_char(n as int)));
        assert(spec_u64_str(n).drop_last() =~= Seq::<char>::empty());
        assert(spec_digits_val(Seq::<char>::empty()) == 0);
        assert(spec_digit_val(digit_char(n as int)) == n);
    } else {
        lemma_u64_str_digits(n / 10);
        let hd = spec_u64_str(n / 10);
        let c = digit_char((n % 10) as int);
        assert(spec_u64_str(n) == hd + seq![c]);
        assert(spec_all_digits(hd + seq![c])) by {
            assert(forall|i: int|
                0 <= i < hd.len() ==> #[trigger] (hd + seq![c])[i] == hd[i]);
            assert((hd + seq![c])[hd.len() as int] == c);
            assert(spec_is_digit(c));
        }
        assert((hd + seq![c]).drop_last() =~= hd);
        assert((hd + seq![c]).last() == c);
        assert(spec_digit_val(c) == n % 10);
        assert(spec_digits_val(spec_u64_str(n)) == spec_digits_val(hd) * 10 + n % 10);
    }
}

/// A value below ten to the `k` prints in at most `k` digits.
proof fn lemma_u64_str_len(n: nat, k: nat)
    requires
        k >= 1,
        n < spec_pow10(k),
    ensures
        spec_u64_str(n).len() <= k,
    decreases k,
{
    if n < 10 {
    } else {
        assert(spec_pow10(k) == 10 * spec_pow10((k - 1) as nat));
        assert(k >= 2) by {
            lemma_pow10_vals();
            if k == 1 {
                assert(spec_pow10(1) == 10);
            }
        }
        assert(n / 10 < spec_pow10((k - 1) as nat)) by (nonlinear_arith)
            requires n < 10 * spec_pow10((k - 1) as nat),
        ;
        lemma_u64_str_len(n / 10, (k - 1) as nat);
        assert(spec_u64_str(n).len() == spec_u64_str(n / 10).len() + 1);
    }
}

/// The small powers of ten past the fraction range.
proof fn lemma_pow10_ten()
    ensures
        spec_pow10(10) == 10000000000,
{
    lemma_pow10_vals();
    assert(spec_pow10(7) == 10000000);
    assert(spec_pow10(8) == 100000000);
    assert(spec_pow10(9) == 1000000000);
    assert(spec_pow10(10) == 10000000000);
}

/// Reading an unsigned integer off a written digit run yields the run's
/// value and stops exactly at the following non-digit.
proof fn lemma_read_digits_at(text: Seq<char>, pos: int, ds: Seq<char>, rest: Seq<char>)
    requires
        0 <= pos <= text.len(),
        1 <= ds.len() <= 10,
        spec_all_digits(ds),
        spec_digits_val(ds) <= 0xFFFFFFFF,
        text.skip(pos) == ds + rest,
        rest.len() == 0 || !spec_is_digit(rest[0]),
    ensures
        spec_read_uint(text, pos) == Some((spec_digits_val(ds), pos + ds.len())),
        text.skip(pos + ds.len()) == rest,
        0 <= pos + ds.len() <= text.len(),
{
    lemma_digit_run_of(text, pos, ds, rest);
    lemma_step(text, pos, ds, rest);
}

/// Reading an unsigned integer off its own printed digits yields the
/// value and stops exactly at the following non-digit.
proof fn lemma_read_uint_at(text: Seq<char>, pos: int, n: nat, rest: Seq<char>)
    requires
        0 <= pos <= text.len(),
        n <= 0xFFFFFFFF,
        text.skip(pos) == spec_u64_str(n) + rest,
        rest.len() == 0 || !spec_is_digit(rest[0]),
    ensures
        spec_read_uint(text, pos) == Some((n, pos + spec_u64_str(n).len())),
        text.skip(pos + spec_u64_str(n).len()) == rest,
        0 <= pos + spec_u64_str(n).len() <= text.len(),
{
    lemma_u64_str_digits(n);
    lemma_pow10_ten();
    lemma_u64_str_len(n, 10);
    lemma_read_digits_at(text, pos, spec_u64_str(n), rest);
}

/// Two padded digits hold the value they were padded from.
proof fn lemma_padded2_digits(m: nat)
    requires
        m <= 99,
    ensures
        spec_padded_digits(m, 2).len() == 2,
        spec_all_digits(spec_padded_digits(m, 2)),
        spec_digits_val(spec_padded_digits(m, 2)) == m,
{
    let p1 = spec_padded_digits(m / 10, 1);
    let p2 = spec_padded_digits(m, 2);
    assert(spec_padded_digits((m / 10) / 10, 0) =~= Seq::<char>::empty());
    assert((m / 10) % 10 == m / 10);
    assert(p1 =~= Seq::<char>::empty() + seq![digit_char(((m / 10) % 10) as int)]);
    assert(p1 =~= seq![digit_char((m / 10) as int)]);
    assert(p2 == p1 + seq![digit_char((m % 10) as int)]);
    assert(spec_all_digits(p2)) by {
        assert(p2[0] == digit_char((m / 10) as int));
        assert(p2[1] == digit_char((m % 10) as int));
        assert(spec_is_digit(digit_char((m / 10) as int)));
        assert(spec_is_digit(digit_char((m % 10) as int)));
    }
    assert(p2.drop_last() =~= p1);
    assert(p1.drop_last() =~= Seq::<char>::empty());
    assert(p1.last() == digit_char((m / 10) as int));
    assert(p2.last() == digit_char((m % 10) as int));
    assert(spec_digits_val(Seq::<char>::empty()) == 0);
    assert(spec_digit_val(digit_char((m / 10) as int)) == m / 10);
    assert(spec_digit_val(digit_char((m % 10) as int)) == m % 10);
    assert(spec_digits_val(p1) == m / 10);
    assert(spec_digits_val(p2) == (m / 10) * 10 + m % 10);
}

/// A non-zero two-digit fraction: one digit when the low digit is zero,
/// two otherwise, evaluating back as written.
proof fn lemma_frac2_digits(m: nat)
    requires
        1 <= m <= 99,
    ensures
        spec_all_digits(spec_frac_digits(m, 2)),
        m % 10 == 0 ==> spec_frac_digits(m, 2).len() == 1 && spec_digits_val(
            spec_frac_digits(m, 2),
        ) == m / 10,
        m % 10 != 0 ==> spec_frac_digits(m, 2).len() == 2 && spec_digits_val(
            spec_frac_digits(m, 2),
        ) == m,
{
    if m % 10 == 0 {
        assert(spec_frac_digits(m, 2) == spec_frac_digits(m / 10, 1));
        assert((m / 10) % 10 == m / 10);
        assert(m / 10 >= 1);
        assert(spec_frac_digits(m / 10, 1) == spec_padded_digits(m / 10, 1));
        let p1 = spec_padded_digits(m / 10, 1);
        assert(spec_padded_digits((m / 10) / 10, 0) =~= Seq::<char>::empty());
        assert(p1 =~= Seq::<char>::empty() + seq![digit_char(((m / 10) % 10) as int)]);
        assert(p1 =~= seq![digit_char((m / 10) as int)]);
        assert(p1.drop_last() =~= Seq::<char>::empty());
        assert(p1.last() == digit_char((m / 10) as int));
        assert(spec_is_digit(digit_char((m / 10) as int)));
        assert(spec_digits_val(Seq::<char>::empty()) == 0);
        assert(spec_digit_val(digit_char((m / 10) as int)) == m / 10);
        assert(spec_digits_val(p1) == m / 10);
        assert(spec_all_digits(p1)) by {
            assert(p1[0] == digit_char((m / 10) as int));
        }
    } else {
        assert(spec_frac_digits(m, 2) == spec_padded_digits(m, 2));
        lemma_padded2_digits(m);
    }
}

/// Reading a hundredths decimal off its own printed form yields the
/// value and stops exactly at the following delimiter.
proof fn lemma_read_cent_at(text: Seq<char>, pos: int, c: nat, rest: Seq<char>)
    requires
        0 <= pos <= text.len(),
        c <= 1000000,
        text.skip(pos) == spec_cent_str(c) + rest,
        rest.len() >= 1,
        !spec_is_digit(rest[0]),
        rest[0] != '.',
    ensures
        spec_read_cent(text, pos) == Some((c, pos + spec_cent_str(c).len())),
        text.skip(pos + spec_cent_str(c).len()) == rest,
        0 <= pos + spec_cent_str(c).len() <= text.len(),
{
    let ip = c / 100;
    let m = c % 100;
    if m == 0 {
        assert(spec_cent_str(c) == spec_u64_str(ip));
        lemma_read_uint_at(text, pos, ip, rest);
        let p1 = pos + spec_u64_str(ip).len();
        assert(p1 < text.len()) by {
            assert(text.skip(p1).len() == rest.len());
        }
        assert(text[p1] == text.skip(p1)[0]);
        assert(text[p1] == rest[0]);
        assert(ip * 100 == c);
    } else {
        let fr = spec_frac_digits(m, 2);
        lemma_frac2_digits(m);
        assert(spec_cent_str(c) == spec_u64_str(ip) + seq!['.'] + fr);
        assert(text.skip(pos) =~= spec_u64_str(ip) + (seq!['.'] + (fr + rest)));
        assert((seq!['.'] + (fr + rest))[0] == '.');
        assert(!spec_is_digit('.'));
        lemma_read_uint_at(text, pos, ip, seq!['.'] + (fr + rest));
        let p1 = pos + spec_u64_str(ip).len();
        assert(p1 < text.len()) by {
            assert(text.skip(p1).len() == 1 + fr.len() + rest.len());
        }
        assert(text[p1] == text.skip(p1)[0]);
        assert(text[p1] == '.');
        lemma_step(text, p1, seq!['.'], fr + rest);
        let fv = spec_digits_val(fr);
        assert(fv <= 99) by {
            if m % 10 == 0 {
                assert(fv == m / 10);
            } else {
                assert(fv == m);
            }
        }
        lemma_read_digits_at(text, p1 + 1, fr, rest);
        let p2 = p1 + 1 + fr.len();
        if m % 10 == 0 {
            assert(spec_read_cent(text, pos) == Some((ip * 100 + (m / 10) * 10, p2)));
            assert(ip * 100 + (m / 10) * 10 == c);
        } else {
            assert(spec_read_cent(text, pos) == Some((ip * 100 + m, p2)));
            assert(ip * 100 + m == c);
        }
        assert(pos + spec_cent_str(c).len() == p2);
    }
}

/// The first quote after a quote-free word sits right behind it.
proof fn lemma_char_from_run(text: Seq<char>, pos: int, w: Seq<char>, rest: Seq<char>, c: char)
    requires
        0 <= pos <= text.len(),
        text.skip(pos) == w + rest,
        forall|i: int| 0 <= i < w.len() ==> #[trigger] w[i] != c,
        rest.len() >= 1,
        rest[0] == c,
    ensures
        spec_char_from(text, c, pos) == Some(pos + w.len()),
    decreases w.len(),
{
    assert(text.skip(pos).len() == text.len() - pos);
    if w.len() == 0 {
        assert(pos < text.len());
        assert(text.skip(pos)[0] == text[pos]);
        assert(text.skip(pos)[0] == rest[0]);
        assert(spec_char_from(text, c, pos) == Some(pos));
    } else {
        assert(pos < text.len());
        assert(text.skip(pos)[0] == text[pos]);
        assert(text.skip(pos)[0] == w[0]);
        assert(text[pos] != c);
        assert(text.skip(pos) =~= seq![w[0]] + (w.drop_first() + rest));
        lemma_step(text, pos, seq![w[0]], w.drop_first() + rest);
        assert(forall|i: int|
            0 <= i < w.drop_first().len() ==> #[trigger] w.drop_first()[i] == w[i + 1]);
        lemma_char_from_run(text, pos + 1, w.drop_first(), rest, c);
    }
}

/// Every aspect word is short, quote free, and names its aspect back.
proof fn lemma_aspect_word_props(a: Aspect)
    ensures
        1 <= spec_aspect_word(a).len() <= 12,
        forall|i: int|
            0 <= i < spec_aspect_word(a).len() ==> #[trigger] spec_aspect_word(a)[i] != '"',
        spec_word_to_aspect(spec_aspect_word(a)) == Some(a),
{
    reveal_strlit("16:9");
    reveal_strlit("1:1");
    reveal_strlit("9:16");
    match a {
        Aspect::Ratio16x9 => {
        },
        Aspect::Ratio1x1 => {
            assert("1:1"@.len() != "16:9"@.len());
        },
        Aspect::Ratio9x16 => {
            assert("9:16"@[0] != "16:9"@[0]);
            assert("9:16"@ != "16:9"@);
            assert("9:16"@.len() != "1:1"@.len());
        },
    }
}

/// Every shape word is short, quote free, and names its shape back.
proof fn lemma_shape_word_props(s: CameraShape)
    ensures
        1 <= spec_shape_word(s).len() <= 12,
        forall|i: int|
            0 <= i < spec_shape_word(s).len() ==> #[trigger] spec_shape_word(s)[i] != '"',
        spec_word_to_shape(spec_shape_word(s)) == Some(s),
{
    reveal_strlit("circle");
    reveal_strlit("rounded");
    reveal_strlit("sharp");
    match s {
        CameraShape::Circle => {
        },
        CameraShape::Rounded => {
            assert("rounded"@.len() != "circle"@.len());
        },
        CameraShape::Sharp => {
            assert("sharp"@.len() != "circle"@.len());
            assert("sharp"@.len() != "rounded"@.len());
        },
    }
}

/// Every background word is short, quote free, and names its type back.
proof fn lemma_bg_word_props(b: BackgroundType)
    ensures
        1 <= spec_bg_word(b).len() <= 12,
        forall|i: int| 0 <= i < spec_bg_word(b).len() ==> #[trigger] spec_bg_word(b)[i] != '"',
        spec_word_to_bg(spec_bg_word(b)) == Some(b),
{
    reveal_strlit("gradient");
    reveal_strlit("wallpaper");
    match b {
        BackgroundType::Gradient => {
        },
        BackgroundType::Wallpaper => {
            assert("wallpaper"@.len() != "gradient"@.len());
        },
    }
}

/// Every position word is short, quote free, and names its corner back.
proof fn lemma_pos_word_props(p: CameraPosition)
    ensures
        1 <= spec_pos_word(p).len() <= 12,
        forall|i: int| 0 <= i < spec_pos_word(p).len() ==> #[trigger] spec_pos_word(p)[i] != '"',
        spec_word_to_pos(spec_pos_word(p)) == Some(p),
{
    reveal_strlit("top_left");
    reveal_strlit("top_right");
    reveal_strlit("bottom_left");
    reveal_strlit("bottom_right");
    match p {
        CameraPosition::TopLeft => {
        },
        CameraPosition::TopRight => {
            assert("top_right"@.len() != "top_left"@.len());
        },
        CameraPosition::BottomLeft => {
            assert("bottom_left"@.len() != "top_left"@.len());
            assert("bottom_left"@.len() != "top_right"@.len());
        },
        CameraPosition::BottomRight => {
            assert("bottom_right"@.len() != "top_left"@.len());
            assert("bottom_right"@.len() != "top_right"@.len());
            assert("bottom_right"@.len() != "bottom_left"@.len());
        },
    }
}

/// Every mode word is short, quote free, and names its mode back.
proof fn lemma_mode_word_props(m: LayoutMode)
    ensures
        1 <= spec_mode_word(m).len() <= 12,
        forall|i: int|
            0 <= i < spec_mode_word(m).len() ==> #[trigger] spec_mode_word(m)[i] != '"',
        spec_word_to_mode(spec_mode_word(m)) == Some(m),
{
    reveal_strlit("shrink");
    reveal_strlit("split");
    match m {
        LayoutMode::Shrink => {
        },
        LayoutMode::Split => {
            assert("split"@.len() != "shrink"@.len());
        },
    }
}

/// Advances past `lit` exactly when the text continues with it.
fn expect(text: &str, pos: usize, lit: &str) -> (r: Option<usize>)
    requires
        pos <= text@.len(),
    ensures
        ({
            let goal = spec_expect(text@, pos as int, lit@);
            match r {
                Some(p) => goal == Some(p as int) && pos <= p <= text@.len(),
                None => goal is None,
            }
        }),
{
    let n = text.unicode_len();
    let m = lit.unicode_len();
    if m > n - pos {
        return None;
    }
    let mut j: usize = 0;
    while j < m
        invariant
            j <= m,
            pos + m <= n,
            n == text@.len(),
            m == lit@.len(),
            forall|q: int| 0 <= q < j ==> text@[pos + q] == lit@[q],
        decreases m - j,
    {
        if text.get_char(pos + j) != lit.get_char(j) {
            proof {
                assert(text@.subrange(pos as int, pos + lit@.len())[j as int] != lit@[j as int]);
            }
            return None;
        }
        j = j + 1;
    }
    proof {
        assert(text@.subrange(pos as int, pos + lit@.len()) =~= lit@);
    }
    Some(pos + m)
}

/// Reads an unsigned integer of up to ten digits.
#[verifier::loop_isolation(false)]
fn read_u32(text: &str, pos: usize) -> (r: Option<(u32, usize)>)
    requires
        pos <= text@.len(),
    ensures
        ({
            let goal = spec_read_uint(text@, pos as int);
            match r {
                Some(p) => goal == Some((p.0 as nat, p.1 as int)) && pos <= p.1 <= text@.len(),
                None => goal is None,
            }
        }),
{
    let n = text.unicode_len();
    let mut v: u64 = 0;
    let mut i: usize = pos;
    let mut stop: bool = false;
    while i < n && i - pos < 10 && !stop
        invariant
            pos <= i <= n,
            n == text@.len(),
            i - pos <= 10,
            spec_digit_run(text@, pos as int) == (i - pos) + spec_digit_run(text@, i as int),
            v as nat == spec_digits_val(text@.subrange(pos as int, i as int)),
            stop ==> i < n && !spec_is_digit(text@[i as int]),
            v <= 9999999999u64,
            i - pos <= 9 ==> v <= 999999999u64,
            i - pos <= 8 ==> v <= 99999999u64,
            i - pos <= 7 ==> v <= 9999999u64,
            i - pos <= 6 ==> v <= 999999u64,
            i - pos <= 5 ==> v <= 99999u64,
            i - pos <= 4 ==> v <= 9999u64,
            i - pos <= 3 ==> v <= 999u64,
            i - pos <= 2 ==> v <= 99u64,
            i - pos <= 1 ==> v <= 9u64,
            i - pos == 0 ==> v == 0u64,
        decreases n - i, (if stop { 0int } else { 1int }),
    {
        let c = text.get_char(i);
        let d: u64 = match c {
            '0' => 0, '1' => 1, '2' => 2, '3' => 3, '4' => 4,
            '5' => 5, '6' => 6, '7' => 7, '8' => 8, '9' => 9,
            _ => {
                proof {
                    assert(!spec_is_digit(text@[i as int]));
                }
                stop = true;
                continue;
            },
        };
        proof {
            assert(spec_is_digit(text@[i as int]));
            assert(spec_digit_val(text@[i as int]) == d as nat);
            assert(text@.subrange(pos as int, i as int + 1).drop_last() =~= text@.subrange(
                pos as int,
                i as int,
            ));
            assert(text@.subrange(pos as int, i as int + 1).last() == text@[i as int]);
        }
        v = v * 10 + d;
        i = i + 1;
    }
    proof {
        if stop {
            assert(spec_digit_run(text@, i as int) == 0);
        } else if i == n {
            assert(spec_digit_run(text@, i as int) == 0);
        }
    }
    if i == pos {
        return None;
    }
    if i < n && i - pos == 10 {
        let c = text.get_char(i);
        if c == '0' || c == '1' || c == '2' || c == '3' || c == '4' || c == '5' || c == '6' || c
            == '7' || c == '8' || c == '9' {
            proof {
                assert(spec_is_digit(text@[i as int]));
                lemma_digit_run_nonneg(text@, i as int + 1);
                assert(spec_digit_run(text@, i as int) >= 1);
                assert(spec_digit_run(text@, pos as int) > 10);
            }
            return None;
        }
        proof {
            assert(!spec_is_digit(text@[i as int]));
            assert(spec_digit_run(text@, i as int) == 0);
        }
    }
    proof {
        assert(spec_digit_run(text@, pos as int) == i - pos);
    }
    if v > 0xFFFFFFFFu64 {
        return None;
    }
    Some((v as u32, i))
}

/// Reads a decimal in hundredths.
fn read_cent(text: &str, pos: usize) -> (r: Option<(u32, usize)>)
    requires
        pos <= text@.len(),
    ensures
        ({
            let goal = spec_read_cent(text@, pos as int);
            match r {
                Some(p) => goal == Some((p.0 as nat, p.1 as int)) && pos <= p.1 <= text@.len(),
                None => goal is None,
            }
        }),
{
    let n = text.unicode_len();
    let (ip, p1) = match read_u32(text, pos) {
        Some(x) => x,
        None => {
            return None;
        },
    };
    if ip > 10000000 {
        return None;
    }
    if p1 >= n || text.get_char(p1) != '.' {
        return Some((ip * 100, p1));
    }
    let (fp, p2) = match read_u32(text, p1 + 1) {
        Some(x) => x,
        None => {
            return None;
        },
    };
    let flen = p2 - (p1 + 1);
    if flen == 1 && fp <= 99 {
        Some((ip * 100 + fp * 10, p2))
    } else if flen == 2 && fp <= 99 {
        Some((ip * 100 + fp, p2))
    } else {
        None
    }
}

/// Reads a `true` or `false` literal.
fn read_bool(text: &str, pos: usize) -> (r: Option<(bool, usize)>)
    requires
        pos <= text@.len(),
    ensures
        ({
            let goal = spec_read_bool(text@, pos as int);
            match r {
                Some(p) => goal == Some((p.0, p.1 as int)) && pos <= p.1 <= text@.len(),
                None => goal is None,
            }
        }),
{
    if let Some(p) = expect(text, pos, "true") {
        return Some((true, p));
    }
    if let Some(p) = expect(text, pos, "false") {
        return Some((false, p));
    }
    None
}

/// Reads the word before the next quote, and the position past it.
fn read_word(text: &str, pos: usize) -> (r: Option<(&str, usize)>)
    requires
        pos <= text@.len(),
    ensures
        ({
            let goal = spec_read_word(text@, pos as int);
            match r {
                Some(p) => goal == Some((p.0@, p.1 as int)) && pos <= p.1 <= text@.len(),
                None => goal is None,
            }
        }),
{
    let q = match char_from(text, '"', pos) {
        Some(q) => q,
        None => {
            return None;
        },
    };
    let w = text.substring_char(pos, q);
    Some((w, q + 1))
}

/// Reads a quoted `Aspect` word.
fn parse_aspect_word(text: &str, pos: usize) -> (r: Option<(Aspect, usize)>)
    requires
        pos <= text@.len(),
    ensures
        ({
            let goal = spec_read_aspect(text@, pos as int);
            match r {
                Some(p) => goal == Some((p.0, p.1 as int)) && pos <= p.1 <= text@.len(),
                None => goal is None,
            }
        }),
{
    let (w, p) = match read_word(text, pos) {
        Some(x) => x,
        None => {
            return None;
        },
    };
    if str_eq(w, "16:9") {
        Some((Aspect::Ratio16x9, p))
    } else if str_eq(w, "1:1") {
        Some((Aspect::Ratio1x1, p))
    } else if str_eq(w, "9:16") {
        Some((Aspect::Ratio9x16, p))
    } else {
        None
    }
}

/// Reads a quoted `CameraShape` word.
fn parse_shape_word(text: &str, pos: usize) -> (r: Option<(CameraShape, usize)>)
    requires
        pos <= text@.len(),
    ensures
        ({
            let goal = spec_read_shape(text@, pos as int);
            match r {
                Some(p) => goal == Some((p.0, p.1 as int)) && pos <= p.1 <= text@.len(),
                None => goal is None,
            }
        }),
{
    let (w, p) = match read_word(text, pos) {
        Some(x) => x,
        None => {
            return None;
        },
    };
    if str_eq(w, "circle") {
        Some((CameraShape::Circle, p))
    } else if str_eq(w, "rounded") {
        Some((CameraShape::Rounded, p))
    } else if str_eq(w, "sharp") {
        Some((CameraShape::Sharp, p))
    } else {
        None
    }
}

/// Reads a quoted `BackgroundType` word.
fn parse_bg_word(text: &str, pos: usize) -> (r: Option<(BackgroundType, usize)>)
    requires
        pos <= text@.len(),
    ensures
        ({
            let goal = spec_read_bg(text@, pos as int);
            match r {
                Some(p) => goal == Some((p.0, p.1 as int)) && pos <= p.1 <= text@.len(),
                None => goal is None,
            }
        }),
{
    let (w, p) = match read_word(text, pos) {
        Some(x) => x,
        None => {
            return None;
        },
    };
    if str_eq(w, "gradient") {
        Some((BackgroundType::Gradient, p))
    } else if str_eq(w, "wallpaper") {
        Some((BackgroundType::Wallpaper, p))
    } else {
        None
    }
}

/// Reads a quoted `CameraPosition` word.
fn parse_pos_word(text: &str, pos: usize) -> (r: Option<(CameraPosition, usize)>)
    requires
        pos <= text@.len(),
    ensures
        ({
            let goal = spec_read_pos(text@, pos as int);
            match r {
                Some(p) => goal == Some((p.0, p.1 as int)) && pos <= p.1 <= text@.len(),
                None => goal is None,
            }
        }),
{
    let (w, p) = match read_word(text, pos) {
        Some(x) => x,
        None => {
            return None;
        },
    };
    if str_eq(w, "top_left") {
        Some((CameraPosition::TopLeft, p))
    } else if str_eq(w, "top_right") {
        Some((CameraPosition::TopRight, p))
    } else if str_eq(w, "bottom_left") {
        Some((CameraPosition::BottomLeft, p))
    } else if str_eq(w, "bottom_right") {
        Some((CameraPosition::BottomRight, p))
    } else {
        None
    }
}

/// Reads a quoted `LayoutMode` word.
fn parse_mode_word(text: &str, pos: usize) -> (r: Option<(LayoutMode, usize)>)
    requires
        pos <= text@.len(),
    ensures
        ({
            let goal = spec_read_mode(text@, pos as int);
            match r {
                Some(p) => goal == Some((p.0, p.1 as int)) && pos <= p.1 <= text@.len(),
                None => goal is None,
            }
        }),
{
    let (w, p) = match read_word(text, pos) {
        Some(x) => x,
        None => {
            return None;
        },
    };
    if str_eq(w, "shrink") {
        Some((LayoutMode::Shrink, p))
    } else if str_eq(w, "split") {
        Some((LayoutMode::Split, p))
    } else {
        None
    }
}

/// One decomposition step at field 25.
proof fn lemma_doc_step_25(es: EditState)
    ensures
        spec_doc_upto_26(es) + spec_doc_from_26(es) == spec_doc_upto_25(es)
            + spec_doc_from_25(es),
{
    reveal(spec_doc_upto_26);
    reveal(spec_doc_from_25);
    assert(spec_doc_upto_26(es) + spec_doc_from_26(es) =~= spec_doc_upto_25(es)
        + spec_doc_from_25(es));
}

/// One decomposition step at field 24.
proof fn lemma_doc_step_24(es: EditState)
    ensures
        spec_doc_upto_25(es) + spec_doc_from_25(es) == spec_doc_upto_24(es)
            + spec_doc_from_24(es),
{
    reveal(spec_doc_upto_25);
    reveal(spec_doc_from_24);
    assert(spec_doc_upto_25(es) + spec_doc_from_25(es) =~= spec_doc_upto_24(es)
        + spec_doc_from_24(es));
}

/// One decomposition step at field 23.
proof fn lemma_doc_step_23(es: EditState)
    ensures
        spec_doc_upto_24(es) + spec_doc_from_24(es) == spec_doc_upto_23(es)
            + spec_doc_from_23(es),
{
    reveal(spec_doc_upto_24);
    reveal(spec_doc_from_23);
    assert(spec_doc_upto_24(es) + spec_doc_from_24(es) =~= spec_doc_upto_23(es)
        + spec_doc_from_23(es));
}

/// One decomposition step at field 22.
proof fn lemma_doc_step_22(es: EditState)
    ensures
        spec_doc_upto_23(es) + spec_doc_from_23(es) == spec_doc_upto_22(es)
            + spec_doc_from_22(es),
{
    reveal(spec_doc_upto_23);
    reveal(spec_doc_from_22);
    assert(spec_doc_upto_23(es) + spec_doc_from_23(es) =~= spec_doc_upto_22(es)
        + spec_doc_from_22(es));
}

/// One decomposition step at field 21.
proof fn lemma_doc_step_21(es: EditState)
    ensures
        spec_doc_upto_22(es) + spec_doc_from_22(es) == spec_doc_upto_21(es)
            + spec_doc_from_21(es),
{
    reveal(spec_doc_upto_22);
    reveal(spec_doc_from_21);
    assert(spec_doc_upto_22(es) + spec_doc_from_22(es) =~= spec_doc_upto_21(es)
        + spec_doc_from_21(es));
}

/// One decomposition step at field 20.
proof fn lemma_doc_step_20(es: EditState)
    ensures
        spec_doc_upto_21(es) + spec_doc_from_21(es) == spec_doc_upto_20(es)
            + spec_doc_from_20(es),
{
    reveal(spec_doc_upto_21);
    reveal(spec_doc_from_20);
    assert(spec_doc_upto_21(es) + spec_doc_from_21(es) =~= spec_doc_upto_20(es)
        + spec_doc_from_20(es));
}

/// One decomposition step at field 19.
proof fn lemma_doc_step_19(es: EditState)
    ensures
        spec_doc_upto_20(es) + spec_doc_from_20(es) == spec_doc_upto_19(es)
            + spec_doc_from_19(es),
{
    reveal(spec_doc_upto_20);
    reveal(spec_doc_from_19);
    assert(spec_doc_upto_20(es) + spec_doc_from_20(es) =~= spec_doc_upto_19(es)
        + spec_doc_from_19(es));
}

/// One decomposition step at field 18.
proof fn lemma_doc_step_18(es: EditState)
    ensures
        spec_doc_upto_19(es) + spec_doc_from_19(es) == spec_doc_upto_18(es)
            + spec_doc_from_18(es),
{
    reveal(spec_doc_upto_19);
    reveal(spec_doc_from_18);
    assert(spec_doc_upto_19(es) + spec_doc_from_19(es) =~= spec_doc_upto_18(es)
        + spec_doc_from_18(es));
}

/// One decomposition step at field 17.
proof fn lemma_doc_step_17(es: EditState)
    ensures
        spec_doc_upto_18(es) + spec_doc_from_18(es) == spec_doc_upto_17(es)
            + spec_doc_from_17(es),
{
    reveal(spec_doc_upto_18);
    reveal(spec_doc_from_17);
    assert(spec_doc_upto_18(es) + spec_doc_from_18(es) =~= spec_doc_upto_17(es)
        + spec_doc_from_17(es));
}

/// One decomposition step at field 16.
proof fn lemma_doc_step_16(es: EditState)
    ensures
        spec_doc_upto_17(es) + spec_doc_from_17(es) == spec_doc_upto_16(es)
            + spec_doc_from_16(es),
{
    reveal(spec_doc_upto_17);
    reveal(spec_doc_from_16);
    assert(spec_doc_upto_17(es) + spec_doc_from_17(es) =~= spec_doc_upto_16(es)
        + spec_doc_from_16(es));
}

/// One decomposition step at field 15.
proof fn lemma_doc_step_15(es: EditState)
    ensures
        spec_doc_upto_16(es) + spec_doc_from_16(es) == spec_doc_upto_15(es)
            + spec_doc_from_15(es),
{
    reveal(spec_doc_upto_16);
    reveal(spec_doc_from_15);
    assert(spec_doc_upto_16(es) + spec_doc_from_16(es) =~= spec_doc_upto_15(es)
        + spec_doc_from_15(es));
}

/// One decomposition step at field 14.
proof fn lemma_doc_step_14(es: EditState)
    ensures
        spec_doc_upto_15(es) + spec_doc_from_15(es) == spec_doc_upto_14(es)
            + spec_doc_from_14(es),
{
    reveal(spec_doc_upto_15);
    reveal(spec_doc_from_14);
    assert(spec_doc_upto_15(es) + spec_doc_from_15(es) =~= spec_doc_upto_14(es)
        + spec_doc_from_14(es));
}

/// One decomposition step at field 13.
proof fn lemma_doc_step_13(es: EditState)
    ensures
        spec_doc_upto_14(es) + spec_doc_from_14(es) == spec_doc_upto_13(es)
            + spec_doc_from_13(es),
{
    reveal(spec_doc_upto_14);
    reveal(spec_doc_from_13);
    assert(spec_doc_upto_14(es) + spec_doc_from_14(es) =~= spec_doc_upto_13(es)
        + spec_doc_from_13(es));
}

/// One decomposition step at field 12.
proof fn lemma_doc_step_12(es: EditState)
    ensures
        spec_doc_upto_13(es) + spec_doc_from_13(es) == spec_doc_upto_12(es)
            + spec_doc_from_12(es),
{
    reveal(spec_doc_upto_13);
    reveal(spec_doc_from_12);
    assert(spec_doc_upto_13(es) + spec_doc_from_13(es) =~= spec_doc_upto_12(es)
        + spec_doc_from_12(es));
}

/// One decomposition step at field 11.
proof fn lemma_doc_step_11(es: EditState)
    ensures
        spec_doc_upto_12(es) + spec_doc_from_12(es) == spec_doc_upto_11(es)
            + spec_doc_from_11(es),
{
    reveal(spec_doc_upto_12);
    reveal(spec_doc_from_11);
    assert(spec_doc_upto_12(es) + spec_doc_from_12(es) =~= spec_doc_upto_11(es)
        + spec_doc_from_11(es));
}

/// One decomposition step at field 10.
proof fn lemma_doc_step_10(es: EditState)
    ensures
        spec_doc_upto_11(es) + spec_doc_from_11(es) == spec_doc_upto_10(es)
            + spec_doc_from_10(es),
{
    reveal(spec_doc_upto_11);
    reveal(spec_doc_from_10);
    assert(spec_doc_upto_11(es) + spec_doc_from_11(es) =~= spec_doc_upto_10(es)
        + spec_doc_from_10(es));
}

/// One decomposition step at field 9.
proof fn lemma_doc_step_9(es: EditState)
    ensures
        spec_doc_upto_10(es) + spec_doc_from_10(es) == spec_doc_upto_9(es)
            + spec_doc_from_9(es),
{
    reveal(spec_doc_upto_10);
    reveal(spec_doc_from_9);
    assert(spec_doc_upto_10(es) + spec_doc_from_10(es) =~= spec_doc_upto_9(es)
        + spec_doc_from_9(es));
}

/// One decomposition step at field 8.
proof fn lemma_doc_step_8(es: EditState)
    ensures
        spec_doc_upto_9(es) + spec_doc_from_9(es) == spec_doc_upto_8(es)
            + spec_doc_from_8(es),
{
    reveal(spec_doc_upto_9);
    reveal(spec_doc_from_8);
    assert(spec_doc_upto_9(es) + spec_doc_from_9(es) =~= spec_doc_upto_8(es)
        + spec_doc_from_8(es));
}

/// One decomposition step at field 7.
proof fn lemma_doc_step_7(es: EditState)
    ensures
        spec_doc_upto_8(es) + spec_doc_from_8(es) == spec_doc_upto_7(es)
            + spec_doc_from_7(es),
{
    reveal(spec_doc_upto_8);
    reveal(spec_doc_from_7);
    assert(spec_doc_upto_8(es) + spec_doc_from_8(es) =~= spec_doc_upto_7(es)
        + spec_doc_from_7(es));
}

/// One decomposition step at field 6.
proof fn lemma_doc_step_6(es: EditState)
    ensures
        spec_doc_upto_7(es) + spec_doc_from_7(es) == spec_doc_upto_6(es)
            + spec_doc_from_6(es),
{
    reveal(spec_doc_upto_7);
    reveal(spec_doc_from_6);
    assert(spec_doc_upto_7(es) + spec_doc_from_7(es) =~= spec_doc_upto_6(es)
        + spec_doc_from_6(es));
}

/// One decomposition step at field 5.
proof fn lemma_doc_step_5(es: EditState)
    ensures
        spec_doc_upto_6(es) + spec_doc_from_6(es) == spec_doc_upto_5(es)
            + spec_doc_from_5(es),
{
    reveal(spec_doc_upto_6);
    reveal(spec_doc_from_5);
    assert(spec_doc_upto_6(es) + spec_doc_from_6(es) =~= spec_doc_upto_5(es)
        + spec_doc_from_5(es));
}

/// One decomposition step at field 4.
proof fn lemma_doc_step_4(es: EditState)
    ensures
        spec_doc_upto_5(es) + spec_doc_from_5(es) == spec_doc_upto_4(es)
            + spec_doc_from_4(es),
{
    reveal(spec_doc_upto_5);
    reveal(spec_doc_from_4);
    assert(spec_doc_upto_5(es) + spec_doc_from_5(es) =~= spec_doc_upto_4(es)
        + spec_doc_from_4(es));
}

/// One decomposition step at field 3.
proof fn lemma_doc_step_3(es: EditState)
    ensures
        spec_doc_upto_4(es) + spec_doc_from_4(es) == spec_doc_upto_3(es)
            + spec_doc_from_3(es),
{
    reveal(spec_doc_upto_4);
    reveal(spec_doc_from_3);
    assert(spec_doc_upto_4(es) + spec_doc_from_4(es) =~= spec_doc_upto_3(es)
        + spec_doc_from_3(es));
}

/// One decomposition step at field 2.
proof fn lemma_doc_step_2(es: EditState)
    ensures
        spec_doc_upto_3(es) + spec_doc_from_3(es) == spec_doc_upto_2(es)
            + spec_doc_from_2(es),
{
    reveal(spec_doc_upto_3);
    reveal(spec_doc_from_2);
    assert(spec_doc_upto_3(es) + spec_doc_from_3(es) =~= spec_doc_upto_2(es)
        + spec_doc_from_2(es));
}

/// One decomposition step at field 1.
proof fn lemma_doc_step_1(es: EditState)
    ensures
        spec_doc_upto_2(es) + spec_doc_from_2(es) == spec_doc_upto_1(es)
            + spec_doc_from_1(es),
{
    reveal(spec_doc_upto_2);
    reveal(spec_doc_from_1);
    assert(spec_doc_upto_2(es) + spec_doc_from_2(es) =~= spec_doc_upto_1(es)
        + spec_doc_from_1(es));
}

/// One decomposition step at field 0.
proof fn lemma_doc_step_0(es: EditState)
    ensures
        spec_doc_upto_1(es) + spec_doc_from_1(es) == spec_doc_upto_0(es)
            + spec_doc_from_0(es),
{
    reveal(spec_doc_upto_1);
    reveal(spec_doc_from_0);
    assert(spec_doc_upto_1(es) + spec_doc_from_1(es) =~= spec_doc_upto_0(es)
        + spec_doc_from_0(es));
}

/// The printed document decomposes into its tail from the middle on.
proof fn lemma_doc_decompose_hi(es: EditState)
    ensures
        spec_edit_state_json(es) == spec_doc_upto_13(es) + spec_doc_from_13(es),
{
    reveal(spec_doc_from_26);
    assert(spec_edit_state_json(es) == spec_doc_upto_26(es) + spec_doc_from_26(es));
    lemma_doc_step_25(es);
    lemma_doc_step_24(es);
    lemma_doc_step_23(es);
    lemma_doc_step_22(es);
    lemma_doc_step_21(es);
    lemma_doc_step_20(es);
    lemma_doc_step_19(es);
    lemma_doc_step_18(es);
    lemma_doc_step_17(es);
    lemma_doc_step_16(es);
    lemma_doc_step_15(es);
    lemma_doc_step_14(es);
    lemma_doc_step_13(es);
}

/// The printed document decomposes into its parse-aligned tail.
proof fn lemma_doc_decompose(es: EditState)
    ensures
        spec_edit_state_json(es) == spec_doc_from_0(es),
{
    lemma_doc_decompose_hi(es);
    lemma_doc_step_12(es);
    lemma_doc_step_11(es);
    lemma_doc_step_10(es);
    lemma_doc_step_9(es);
    lemma_doc_step_8(es);
    lemma_doc_step_7(es);
    lemma_doc_step_6(es);
    lemma_doc_step_5(es);
    lemma_doc_step_4(es);
    lemma_doc_step_3(es);
    lemma_doc_step_2(es);
    lemma_doc_step_1(es);
    lemma_doc_step_0(es);
    reveal(spec_doc_upto_0);
    assert(Seq::<char>::empty() + spec_doc_from_0(es) =~= spec_doc_from_0(es));
}

/// Parsing the tail that is just the closing brace ends the document.
proof fn lemma_parse_at_26(text: Seq<char>, pos: int, es: EditState, aspect: Aspect, padding: u32, radius: u32, shadow: u32, camera_size: u32, camera_shape: CameraShape, camera_shadow: u32, camera_mirror: bool, camera_blur: bool, background_type: BackgroundType, background_preset: u32, camera_position: CameraPosition, shrink_16_9_cent: u32, shrink_1_1_cent: u32, shrink_9_16_cent: u32, portrait_split: bool, portrait_bottom_ratio_cent: u32, mode_16_9: LayoutMode, mode_1_1: LayoutMode, mode_9_16: LayoutMode, title_safe_16_9_cent: u32, subtitle_safe_16_9_cent: u32, title_safe_1_1_cent: u32, subtitle_safe_1_1_cent: u32, title_safe_9_16_cent: u32, subtitle_safe_9_16_cent: u32)
    requires
        0 <= pos <= text.len(),
        text.skip(pos) == spec_doc_from_26(es),
        aspect == es.aspect,
        padding == es.padding,
        radius == es.radius,
        shadow == es.shadow,
        camera_size == es.camera_size,
        camera_shape == es.camera_shape,
        camera_shadow == es.camera_shadow,
        camera_mirror == es.camera_mirror,
        camera_blur == es.camera_blur,
        background_type == es.background_type,
        background_preset == es.background_preset,
        camera_position == es.camera_position,
        shrink_16_9_cent == es.shrink_16_9_cent,
        shrink_1_1_cent == es.shrink_1_1_cent,
        shrink_9_16_cent == es.shrink_9_16_cent,
        portrait_split == es.portrait_split,
        portrait_bottom_ratio_cent == es.portrait_bottom_ratio_cent,
        mode_16_9 == es.mode_16_9,
        mode_1_1 == es.mode_1_1,
        mode_9_16 == es.mode_9_16,
        title_safe_16_9_cent == es.title_safe_16_9_cent,
        subtitle_safe_16_9_cent == es.subtitle_safe_16_9_cent,
        title_safe_1_1_cent == es.title_safe_1_1_cent,
        subtitle_safe_1_1_cent == es.subtitle_safe_1_1_cent,
        title_safe_9_16_cent == es.title_safe_9_16_cent,
        subtitle_safe_9_16_cent == es.subtitle_safe_9_16_cent,
    ensures
        spec_parse_at_26(text, pos, aspect, padding, radius, shadow, camera_size, camera_shape, camera_shadow, camera_mirror, camera_blur, background_type, background_preset, camera_position, shrink_16_9_cent, shrink_1_1_cent, shrink_9_16_cent, portrait_split, portrait_bottom_ratio_cent, mode_16_9, mode_1_1, mode_9_16, title_safe_16_9_cent, subtitle_safe_16_9_cent, title_safe_1_1_cent, subtitle_safe_1_1_cent, title_safe_9_16_cent, subtitle_safe_9_16_cent) == Some(es),
{
    reveal(spec_doc_from_26);
    reveal(spec_parse_at_26);
    assert(text.skip(pos) =~= "}"@ + Seq::<char>::empty());
    lemma_step(text, pos, "}"@, Seq::<char>::empty());
    let p = pos + "}"@.len();
    assert(spec_expect(text, pos, "}"@) == Some(p));
    assert(text.skip(p).len() == 0);
    assert(text.skip(p).len() == text.len() - p);
    assert(p == text.len());
    assert(EditState {
        aspect,
        padding,
        radius,
        shadow,
        camera_size,
        camera_shape,
        camera_shadow,
        camera_mirror,
        camera_blur,
        background_type,
        background_preset,
        camera_position,
        shrink_16_9_cent,
        shrink_1_1_cent,
        shrink_9_16_cent,
        portrait_split,
        portrait_bottom_ratio_cent,
        mode_16_9,
        mode_1_1,
        mode_9_16,
        title_safe_16_9_cent,
        subtitle_safe_16_9_cent,
        title_safe_1_1_cent,
        subtitle_safe_1_1_cent,
        title_safe_9_16_cent,
        subtitle_safe_9_16_cent,
    } == es);
}

/// Parsing the tail from field 25 (`subtitle_safe_9_16_cent`) recovers the state.
proof fn lemma_parse_at_25(text: Seq<char>, pos: int, es: EditState, aspect: Aspect, padding: u32, radius: u32, shadow: u32, camera_size: u32, camera_shape: CameraShape, camera_shadow: u32, camera_mirror: bool, camera_blur: bool, background_type: BackgroundType, background_preset: u32, camera_position: CameraPosition, shrink_16_9_cent: u32, shrink_1_1_cent: u32, shrink_9_16_cent: u32, portrait_split: bool, portrait_bottom_ratio_cent: u32, mode_16_9: LayoutMode, mode_1_1: LayoutMode, mode_9_16: LayoutMode, title_safe_16_9_cent: u32, subtitle_safe_16_9_cent: u32, title_safe_1_1_cent: u32, subtitle_safe_1_1_cent: u32, title_safe_9_16_cent: u32)
    requires
        0 <= pos <= text.len(),
        es.cents_wf(),
        text.skip(pos) == spec_doc_from_25(es),
        aspect == es.aspect,
        padding == es.padding,
        radius == es.radius,
        shadow == es.shadow,
        camera_size == es.camera_size,
        camera_shape == es.camera_shape,
        camera_shadow == es.camera_shadow,
        camera_mirror == es.camera_mirror,
        camera_blur == es.camera_blur,
        background_type == es.background_type,
        background_preset == es.background_preset,
        camera_position == es.camera_position,
        shrink_16_9_cent == es.shrink_16_9_cent,
        shrink_1_1_cent == es.shrink_1_1_cent,
        shrink_9_16_cent == es.shrink_9_16_cent,
        portrait_split == es.portrait_split,
        portrait_bottom_ratio_cent == es.portrait_bottom_ratio_cent,
        mode_16_9 == es.mode_16_9,
        mode_1_1 == es.mode_1_1,
        mode_9_16 == es.mode_9_16,
        title_safe_16_9_cent == es.title_safe_16_9_cent,
        subtitle_safe_16_9_cent == es.subtitle_safe_16_9_cent,
        title_safe_1_1_cent == es.title_safe_1_1_cent,
        subtitle_safe_1_1_cent == es.subtitle_safe_1_1_cent,
        title_safe_9_16_cent == es.title_safe_9_16_cent,
    ensures
        spec_parse_at_25(text, pos, aspect, padding, radius, shadow, camera_size, camera_shape, camera_shadow, camera_mirror, camera_blur, background_type, background_preset, camera_position, shrink_16_9_cent, shrink_1_1_cent, shrink_9_16_cent, portrait_split, portrait_bottom_ratio_cent, mode_16_9, mode_1_1, mode_9_16, title_safe_16_9_cent, subtitle_safe_16_9_cent, title_safe_1_1_cent, subtitle_safe_1_1_cent, title_safe_9_16_cent) == Some(es),
{
    reveal(spec_doc_from_25);
    reveal(spec_doc_from_26);
    reveal(spec_parse_at_25);
    let tail = spec_doc_from_26(es);
    lemma_step(text, pos, ",\"subtitle_safe_9_16\":"@, spec_cent_str(es.subtitle_safe_9_16_cent as nat) + tail);
    let p = pos + ",\"subtitle_safe_9_16\":"@.len();
    assert(spec_expect(text, pos, ",\"subtitle_safe_9_16\":"@) == Some(p));
    assert(tail.len() >= 1 && tail[0] == '}') by {
        reveal_strlit("}");
    }
    assert(!spec_is_digit('}'));
    assert('}' != '.');
    lemma_read_cent_at(text, p, es.subtitle_safe_9_16_cent as nat, tail);
    let p2 = p + spec_cent_str(es.subtitle_safe_9_16_cent as nat).len();
    assert(((es.subtitle_safe_9_16_cent as nat) as u32) == es.subtitle_safe_9_16_cent);
    lemma_parse_at_26(text, p2, es, aspect, padding, radius, shadow, camera_size, camera_shape, camera_shadow, camera_mirror, camera_blur, background_type, background_preset, camera_position, shrink_16_9_cent, shrink_1_1_cent, shrink_9_16_cent, portrait_split, portrait_bottom_ratio_cent, mode_16_9, mode_1_1, mode_9_16, title_safe_16_9_cent, subtitle_safe_16_9_cent, title_safe_1_1_cent, subtitle_safe_1_1_cent, title_safe_9_16_cent, es.subtitle_safe_9_16_cent);
}

/// Parsing the tail from field 24 (`title_safe_9_16_cent`) recovers the state.
proof fn lemma_parse_at_24(text: Seq<char>, pos: int, es: EditState, aspect: Aspect, padding: u32, radius: u32, shadow: u32, camera_size: u32, camera_shape: CameraShape, camera_shadow: u32, camera_mirror: bool, camera_blur: bool, background_type: BackgroundType, background_preset: u32, camera_position: CameraPosition, shrink_16_9_cent: u32, shrink_1_1_cent: u32, shrink_9_16_cent: u32, portrait_split: bool, portrait_bottom_ratio_cent: u32, mode_16_9: LayoutMode, mode_1_1: LayoutMode, mode_9_16: LayoutMode, title_safe_16_9_cent: u32, subtitle_safe_16_9_cent: u32, title_safe_1_1_cent: u32, subtitle_safe_1_1_cent: u32)
    requires
        0 <= pos <= text.len(),
        es.cents_wf(),
        text.skip(pos) == spec_doc_from_24(es),
        aspect == es.aspect,
        padding == es.padding,
        radius == es.radius,
        shadow == es.shadow,
        camera_size == es.camera_size,
        camera_shape == es.camera_shape,
        camera_shadow == es.camera_shadow,
        camera_mirror == es.camera_mirror,
        camera_blur == es.camera_blur,
        background_type == es.background_type,
        background_preset == es.background_preset,
        camera_position == es.camera_position,
        shrink_16_9_cent == es.shrink_16_9_cent,
        shrink_1_1_cent == es.shrink_1_1_cent,
        shrink_9_16_cent == es.shrink_9_16_cent,
        portrait_split == es.portrait_split,
        portrait_bottom_ratio_cent == es.portrait_bottom_ratio_cent,
        mode_16_9 == es.mode_16_9,
        mode_1_1 == es.mode_1_1,
        mode_9_16 == es.mode_9_16,
        title_safe_16_9_cent == es.title_safe_16_9_cent,
        subtitle_safe_16_9_cent == es.subtitle_safe_16_9_cent,
        title_safe_1_1_cent == es.title_safe_1_1_cent,
        subtitle_safe_1_1_cent == es.subtitle_safe_1_1_cent,
    ensures
        spec_parse_at_24(text, pos, aspect, padding, radius, shadow, camera_size, camera_shape, camera_shadow, camera_mirror, camera_blur, background_type, background_preset, camera_position, shrink_16_9_cent, shrink_1_1_cent, shrink_9_16_cent, portrait_split, portrait_bottom_ratio_cent, mode_16_9, mode_1_1, mode_9_16, title_safe_16_9_cent, subtitle_safe_16_9_cent, title_safe_1_1_cent, subtitle_safe_1_1_cent) == Some(es),
{
    reveal(spec_doc_from_24);
    reveal(spec_doc_from_25);
    reveal(spec_parse_at_24);
    let tail = spec_doc_from_25(es);
    lemma_step(text, pos, ",\"title_safe_9_16\":"@, spec_cent_str(es.title_safe_9_16_cent as nat) + tail);
    let p = pos + ",\"title_safe_9_16\":"@.len();
    assert(spec_expect(text, pos, ",\"title_safe_9_16\":"@) == Some(p));
    assert(tail.len() >= 1 && tail[0] == ',') by {
        reveal_strlit(",\"subtitle_safe_9_16\":");
    }
    assert(!spec_is_digit(','));
    assert(',' != '.');
    lemma_read_cent_at(text, p, es.title_safe_9_16_cent as nat, tail);
    let p2 = p + spec_cent_str(es.title_safe_9_16_cent as nat).len();
    assert(((es.title_safe_9_16_cent as nat) as u32) == es.title_safe_9_16_cent);
    lemma_parse_at_25(text, p2, es, aspect, padding, radius, shadow, camera_size, camera_shape, camera_shadow, camera_mirror, camera_blur, background_type, background_preset, camera_position, shrink_16_9_cent, shrink_1_1_cent, shrink_9_16_cent, portrait_split, portrait_bottom_ratio_cent, mode_16_9, mode_1_1, mode_9_16, title_safe_16_9_cent, subtitle_safe_16_9_cent, title_safe_1_1_cent, subtitle_safe_1_1_cent, es.title_safe_9_16_cent);
}

/// Parsing the tail from field 23 (`subtitle_safe_1_1_cent`) recovers the state.
proof fn lemma_parse_at_23(text: Seq<char>, pos: int, es: EditState, aspect: Aspect, padding: u32, radius: u32, shadow: u32, camera_size: u32, camera_shape: CameraShape, camera_shadow: u32, camera_mirror: bool, camera_blur: bool, background_type: BackgroundType, background_preset: u32, camera_position: CameraPosition, shrink_16_9_cent: u32, shrink_1_1_cent: u32, shrink_9_16_cent: u32, portrait_split: bool, portrait_bottom_ratio_cent: u32, mode_16_9: LayoutMode, mode_1_1: LayoutMode, mode_9_16: LayoutMode, title_safe_16_9_cent: u32, subtitle_safe_16_9_cent: u32, title_safe_1_1_cent: u32)
    requires
        0 <= pos <= text.len(),
        es.cents_wf(),
        text.skip(pos) == spec_doc_from_23(es),
        aspect == es.aspect,
        padding == es.padding,
        radius == es.radius,
        shadow == es.shadow,
        camera_size == es.camera_size,
        camera_shape == es.camera_shape,
        camera_shadow == es.camera_shadow,
        camera_mirror == es.camera_mirror,
        camera_blur == es.camera_blur,
        background_type == es.background_type,
        background_preset == es.background_preset,
        camera_position == es.camera_position,
        shrink_16_9_cent == es.shrink_16_9_cent,
        shrink_1_1_cent == es.shrink_1_1_cent,
        shrink_9_16_cent == es.shrink_9_16_cent,
        portrait_split == es.portrait_split,
        portrait_bottom_ratio_cent == es.portrait_bottom_ratio_cent,
        mode_16_9 == es.mode_16_9,
        mode_1_1 == es.mode_1_1,
        mode_9_16 == es.mode_9_16,
        title_safe_16_9_cent == es.title_safe_16_9_cent,
        subtitle_safe_16_9_cent == es.subtitle_safe_16_9_cent,
        title_safe_1_1_cent == es.title_safe_1_1_cent,
    ensures
        spec_parse_at_23(text, pos, aspect, padding, radius, shadow, camera_size, camera_shape, camera_shadow, camera_mirror, camera_blur, background_type, background_preset, camera_position, shrink_16_9_cent, shrink_1_1_cent, shrink_9_16_cent, portrait_split, portrait_bottom_ratio_cent, mode_16_9, mode_1_1, mode_9_16, title_safe_16_9_cent, subtitle_safe_16_9_cent, title_safe_1_1_cent) == Some(es),
{
    reveal(spec_doc_from_23);
    reveal(spec_doc_from_24);
    reveal(spec_parse_at_23);
    let tail = spec_doc_from_24(es);
    lemma_step(text, pos, ",\"subtitle_safe_1_1\":"@, spec_cent_str(es.subtitle_safe_1_1_cent as nat) + tail);
    let p = pos + ",\"subtitle_safe_1_1\":"@.len();
    assert(spec_expect(text, pos, ",\"subtitle_safe_1_1\":"@) == Some(p));
    assert(tail.len() >= 1 && tail[0] == ',') by {
        reveal_strlit(",\"title_safe_9_16\":");
    }
    assert(!spec_is_digit(','));
    assert(',' != '.');
    lemma_read_cent_at(text, p, es.subtitle_safe_1_1_cent as nat, tail);
    let p2 = p + spec_cent_str(es.subtitle_safe_1_1_cent as nat).len();
    assert(((es.subtitle_safe_1_1_cent as nat) as u32) == es.subtitle_safe_1_1_cent);
    lemma_parse_at_24(text, p2, es, aspect, padding, radius, shadow, camera_size, camera_shape, camera_shadow, camera_mirror, camera_blur, background_type, background_preset, camera_position, shrink_16_9_cent, shrink_1_1_cent, shrink_9_16_cent, portrait_split, portrait_bottom_ratio_cent, mode_16_9, mode_1_1, mode_9_16, title_safe_16_9_cent, subtitle_safe_16_9_cent, title_safe_1_1_cent, es.subtitle_safe_1_1_cent);
}

/// Parsing the tail from field 22 (`title_safe_1_1_cent`) recovers the state.
proof fn lemma_parse_at_22(text: Seq<char>, pos: int, es: EditState, aspect: Aspect, padding: u32, radius: u32, shadow: u32, camera_size: u32, camera_shape: CameraShape, camera_shadow: u32, camera_mirror: bool, camera_blur: bool, background_type: BackgroundType, background_preset: u32, camera_position: CameraPosition, shrink_16_9_cent: u32, shrink_1_1_cent: u32, shrink_9_16_cent: u32, portrait_split: bool, portrait_bottom_ratio_cent: u32, mode_16_9: LayoutMode, mode_1_1: LayoutMode, mode_9_16: LayoutMode, title_safe_16_9_cent: u32, subtitle_safe_16_9_cent: u32)
    requires
        0 <= pos <= text.len(),
        es.cents_wf(),
        text.skip(pos) == spec_doc_from_22(es),
        aspect == es.aspect,
        padding == es.padding,
        radius == es.radius,
        shadow == es.shadow,
        camera_size == es.camera_size,
        camera_shape == es.camera_shape,
        camera_shadow == es.camera_shadow,
        camera_mirror == es.camera_mirror,
        camera_blur == es.camera_blur,
        background_type == es.background_type,
        background_preset == es.background_preset,
        camera_position == es.camera_position,
        shrink_16_9_cent == es.shrink_16_9_cent,
        shrink_1_1_cent == es.shrink_1_1_cent,
        shrink_9_16_cent == es.shrink_9_16_cent,
        portrait_split == es.portrait_split,
        portrait_bottom_ratio_cent == es.portrait_bottom_ratio_cent,
        mode_16_9 == es.mode_16_9,
        mode_1_1 == es.mode_1_1,
        mode_9_16 == es.mode_9_16,
        title_safe_16_9_cent == es.title_safe_16_9_cent,
        subtitle_safe_16_9_cent == es.subtitle_safe_16_9_cent,
    ensures
        spec_parse_at_22(text, pos, aspect, padding, radius, shadow, camera_size, camera_shape, camera_shadow, camera_mirror, camera_blur, background_type, background_preset, camera_position, shrink_16_9_cent, shrink_1_1_cent, shrink_9_16_cent, portrait_split, portrait_bottom_ratio_cent, mode_16_9, mode_1_1, mode_9_16, title_safe_16_9_cent, subtitle_safe_16_9_cent) == Some(es),
{
    reveal(spec_doc_from_22);
    reveal(spec_doc_from_23);
    reveal(spec_parse_at_22);
    let tail = spec_doc_from_23(es);
    lemma_step(text, pos, ",\"title_safe_1_1\":"@, spec_cent_str(es.title_safe_1_1_cent as nat) + tail);
    let p = pos + ",\"title_safe_1_1\":"@.len();
    assert(spec_expect(text, pos, ",\"title_safe_1_1\":"@) == Some(p));
    assert(tail.len() >= 1 && tail[0] == ',') by {
        reveal_strlit(",\"subtitle_safe_1_1\":");
    }
    assert(!spec_is_digit(','));
    assert(',' != '.');
    lemma_read_cent_at(text, p, es.title_safe_1_1_cent as nat, tail);
    let p2 = p + spec_cent_str(es.title_safe_1_1_cent as nat).len();
    assert(((es.title_safe_1_1_cent as nat) as u32) == es.title_safe_1_1_cent);
    lemma_parse_at_23(text, p2, es, aspect, padding, radius, shadow, camera_size, camera_shape, camera_shadow, camera_mirror, camera_blur, background_type, background_preset, camera_position, shrink_16_9_cent, shrink_1_1_cent, shrink_9_16_cent, portrait_split, portrait_bottom_ratio_cent, mode_16_9, mode_1_1, mode_9_16, title_safe_16_9_cent, subtitle_safe_16_9_cent, es.title_safe_1_1_cent);
}

/// Parsing the tail from field 21 (`subtitle_safe_16_9_cent`) recovers the state.
proof fn lemma_parse_at_21(text: Seq<char>, pos: int, es: EditState, aspect: Aspect, padding: u32, radius: u32, shadow: u32, camera_size: u32, camera_shape: CameraShape, camera_shadow: u32, camera_mirror: bool, camera_blur: bool, background_type: BackgroundType, background_preset: u32, camera_position: CameraPosition, shrink_16_9_cent: u32, shrink_1_1_cent: u32, shrink_9_16_cent: u32, portrait_split: bool, portrait_bottom_ratio_cent: u32, mode_16_9: LayoutMode, mode_1_1: LayoutMode, mode_9_16: LayoutMode, title_safe_16_9_cent: u32)
    requires
        0 <= pos <= text.len(),
        es.cents_wf(),
        text.skip(pos) == spec_doc_from_21(es),
        aspect == es.aspect,
        padding == es.padding,
        radius == es.radius,
        shadow == es.shadow,
        camera_size == es.camera_size,
        camera_shape == es.camera_shape,
        camera_shadow == es.camera_shadow,
        camera_mirror == es.camera_mirror,
        camera_blur == es.camera_blur,
        background_type == es.background_type,
        background_preset == es.background_preset,
        camera_position == es.camera_position,
        shrink_16_9_cent == es.shrink_16_9_cent,
        shrink_1_1_cent == es.shrink_1_1_cent,
        shrink_9_16_cent == es.shrink_9_16_cent,
        portrait_split == es.portrait_split,
        portrait_bottom_ratio_cent == es.portrait_bottom_ratio_cent,
        mode_16_9 == es.mode_16_9,
        mode_1_1 == es.mode_1_1,
        mode_9_16 == es.mode_9_16,
        title_safe_16_9_cent == es.title_safe_16_9_cent,
    ensures
        spec_parse_at_21(text, pos, aspect, padding, radius, shadow, camera_size, camera_shape, camera_shadow, camera_mirror, camera_blur, background_type, background_preset, camera_position, shrink_16_9_cent, shrink_1_1_cent, shrink_9_16_cent, portrait_split, portrait_bottom_ratio_cent, mode_16_9, mode_1_1, mode_9_16, title_safe_16_9_cent) == Some(es),
{
    reveal(spec_doc_from_21);
    reveal(spec_doc_from_22);
    reveal(spec_parse_at_21);
    let tail = spec_doc_from_22(es);
    lemma_step(text, pos, ",\"subtitle_safe_16_9\":"@, spec_cent_str(es.subtitle_safe_16_9_cent as nat) + tail);
    let p = pos + ",\"subtitle_safe_16_9\":"@.len();
    assert(spec_expect(text, pos, ",\"subtitle_safe_16_9\":"@) == Some(p));
    assert(tail.len() >= 1 && tail[0] == ',') by {
        reveal_strlit(",\"title_safe_1_1\":");
    }
    assert(!spec_is_digit(','));
    assert(',' != '.');
    lemma_read_cent_at(text, p, es.subtitle_safe_16_9_cent as nat, tail);
    let p2 = p + spec_cent_str(es.subtitle_safe_16_9_cent as nat).len();
    assert(((es.subtitle_safe_16_9_cent as nat) as u32) == es.subtitle_safe_16_9_cent);
    lemma_parse_at_22(text, p2, es, aspect, padding, radius, shadow, camera_size, camera_shape, camera_shadow, camera_mirror, camera_blur, background_type, background_preset, camera_position, shrink_16_9_cent, shrink_1_1_cent, shrink_9_16_cent, portrait_split, portrait_bottom_ratio_cent, mode_16_9, mode_1_1, mode_9_16, title_safe_16_9_cent, es.subtitle_safe_16_9_cent);
}

/// Parsing the tail from field 20 (`title_safe_16_9_cent`) recovers the state.
proof fn lemma_parse_at_20(text: Seq<char>, pos: int, es: EditState, aspect: Aspect, padding: u32, radius: u32, shadow: u32, camera_size: u32, camera_shape: CameraShape, camera_shadow: u32, camera_mirror: bool, camera_blur: bool, background_type: BackgroundType, background_preset: u32, camera_position: CameraPosition, shrink_16_9_cent: u32, shrink_1_1_cent: u32, shrink_9_16_cent: u32, portrait_split: bool, portrait_bottom_ratio_cent: u32, mode_16_9: LayoutMode, mode_1_1: LayoutMode, mode_9_16: LayoutMode)
    requires
        0 <= pos <= text.len(),
        es.cents_wf(),
        text.skip(pos) == spec_doc_from_20(es),
        aspect == es.aspect,
        padding == es.padding,
        radius == es.radius,
        shadow == es.shadow,
        camera_size == es.camera_size,
        camera_shape == es.camera_shape,
        camera_shadow == es.camera_shadow,
        camera_mirror == es.camera_mirror,
        camera_blur == es.camera_blur,
        background_type == es.background_type,
        background_preset == es.background_preset,
        camera_position == es.camera_position,
        shrink_16_9_cent == es.shrink_16_9_cent,
        shrink_1_1_cent == es.shrink_1_1_cent,
        shrink_9_16_cent == es.shrink_9_16_cent,
        portrait_split == es.portrait_split,
        portrait_bottom_ratio_cent == es.portrait_bottom_ratio_cent,
        mode_16_9 == es.mode_16_9,
        mode_1_1 == es.mode_1_1,
        mode_9_16 == es.mode_9_16,
    ensures
        spec_parse_at_20(text, pos, aspect, padding, radius, shadow, camera_size, camera_shape, camera_shadow, camera_mirror, camera_blur, background_type, background_preset, camera_position, shrink_16_9_cent, shrink_1_1_cent, shrink_9_16_cent, portrait_split, portrait_bottom_ratio_cent, mode_16_9, mode_1_1, mode_9_16) == Some(es),
{
    reveal(spec_doc_from_20);
    reveal(spec_doc_from_21);
    reveal(spec_parse_at_20);
    let tail = spec_doc_from_21(es);
    lemma_step(text, pos, ",\"title_safe_16_9\":"@, spec_cent_str(es.title_safe_16_9_cent as nat) + tail);
    let p = pos + ",\"title_safe_16_9\":"@.len();
    assert(spec_expect(text, pos, ",\"title_safe_16_9\":"@) == Some(p));
    assert(tail.len() >= 1 && tail[0] == ',') by {
        reveal_strlit(",\"subtitle_safe_16_9\":");
    }
    assert(!spec_is_digit(','));
    assert(',' != '.');
    lemma_read_cent_at(text, p, es.title_safe_16_9_cent as nat, tail);
    let p2 = p + spec_cent_str(es.title_safe_16_9_cent as nat).len();
    assert(((es.title_safe_16_9_cent as nat) as u32) == es.title_safe_16_9_cent);
    lemma_parse_at_21(text, p2, es, aspect, padding, radius, shadow, camera_size, camera_shape, camera_shadow, camera_mirror, camera_blur, background_type, background_preset, camera_position, shrink_16_9_cent, shrink_1_1_cent, shrink_9_16_cent, portrait_split, portrait_bottom_ratio_cent, mode_16_9, mode_1_1, mode_9_16, es.title_safe_16_9_cent);
}

/// Parsing the tail from field 19 (`mode_9_16`) recovers the state.
proof fn lemma_parse_at_19(text: Seq<char>, pos: int, es: EditState, aspect: Aspect, padding: u32, radius: u32, shadow: u32, camera_size: u32, camera_shape: CameraShape, camera_shadow: u32, camera_mirror: bool, camera_blur: bool, background_type: BackgroundType, background_preset: u32, camera_position: CameraPosition, shrink_16_9_cent: u32, shrink_1_1_cent: u32, shrink_9_16_cent: u32, portrait_split: bool, portrait_bottom_ratio_cent: u32, mode_16_9: LayoutMode, mode_1_1: LayoutMode)
    requires
        0 <= pos <= text.len(),
        es.cents_wf(),
        text.skip(pos) == spec_doc_from_19(es),
        aspect == es.aspect,
        padding == es.padding,
        radius == es.radius,
        shadow == es.shadow,
        camera_size == es.camera_size,
        camera_shape == es.camera_shape,
        camera_shadow == es.camera_shadow,
        camera_mirror == es.camera_mirror,
        camera_blur == es.camera_blur,
        background_type == es.background_type,
        background_preset == es.background_preset,
        camera_position == es.camera_position,
        shrink_16_9_cent == es.shrink_16_9_cent,
        shrink_1_1_cent == es.shrink_1_1_cent,
        shrink_9_16_cent == es.shrink_9_16_cent,
        portrait_split == es.portrait_split,
        portrait_bottom_ratio_cent == es.portrait_bottom_ratio_cent,
        mode_16_9 == es.mode_16_9,
        mode_1_1 == es.mode_1_1,
    ensures
        spec_parse_at_19(text, pos, aspect, padding, radius, shadow, camera_size, camera_shape, camera_shadow, camera_mirror, camera_blur, background_type, background_preset, camera_position, shrink_16_9_cent, shrink_1_1_cent, shrink_9_16_cent, portrait_split, portrait_bottom_ratio_cent, mode_16_9, mode_1_1) == Some(es),
{
    reveal(spec_doc_from_19);
    reveal(spec_doc_from_20);
    reveal(spec_parse_at_19);
    let w = spec_mode_word(es.mode_9_16);
    let tail = spec_doc_from_20(es);
    lemma_step(text, pos, ",\"mode_9_16\":\""@, w + ("\""@ + tail));
    let p = pos + ",\"mode_9_16\":\""@.len();
    assert(spec_expect(text, pos, ",\"mode_9_16\":\""@) == Some(p));
    lemma_mode_word_props(es.mode_9_16);
    assert(("\""@ + tail)[0] == '"') by {
        reveal_strlit("\"");
    }
    assert(("\""@ + tail).len() >= 1) by {
        reveal_strlit("\"");
    }
    lemma_char_from_run(text, p, w, "\""@ + tail, '"');
    let q = p + w.len();
    lemma_step(text, p, w, "\""@ + tail);
    assert(spec_read_word(text, p) == Some((w, q + 1)));
    lemma_step(text, q, "\""@, tail);
    let p2 = q + "\""@.len();
    assert(p2 == q + 1) by {
        reveal_strlit("\"");
    }
    assert(spec_read_mode(text, p) == Some((es.mode_9_16, q + 1)));
    lemma_parse_at_20(text, q + 1, es, aspect, padding, radius, shadow, camera_size, camera_shape, camera_shadow, camera_mirror, camera_blur, background_type, background_preset, camera_position, shrink_16_9_cent, shrink_1_1_cent, shrink_9_16_cent, portrait_split, portrait_bottom_ratio_cent, mode_16_9, mode_1_1, es.mode_9_16);
}

/// Parsing the tail from field 18 (`mode_1_1`) recovers the state.
proof fn lemma_parse_at_18(text: Seq<char>, pos: int, es: EditState, aspect: Aspect, padding: u32, radius: u32, shadow: u32, camera_size: u32, camera_shape: CameraShape, camera_shadow: u32, camera_mirror: bool, camera_blur: bool, background_type: BackgroundType, background_preset: u32, camera_position: CameraPosition, shrink_16_9_cent: u32, shrink_1_1_cent: u32, shrink_9_16_cent: u32, portrait_split: bool, portrait_bottom_ratio_cent: u32, mode_16_9: LayoutMode)
    requires
        0 <= pos <= text.len(),
        es.cents_wf(),
        text.skip(pos) == spec_doc_from_18(es),
        aspect == es.aspect,
        padding == es.padding,
        radius == es.radius,
        shadow == es.shadow,
        camera_size == es.camera_size,
        camera_shape == es.camera_shape,
        camera_shadow == es.camera_shadow,
        camera_mirror == es.camera_mirror,
        camera_blur == es.camera_blur,
        background_type == es.background_type,
        background_preset == es.background_preset,
        camera_position == es.camera_position,
        shrink_16_9_cent == es.shrink_16_9_cent,
        shrink_1_1_cent == es.shrink_1_1_cent,
        shrink_9_16_cent == es.shrink_9_16_cent,
        portrait_split == es.portrait_split,
        portrait_bottom_ratio_cent == es.portrait_bottom_ratio_cent,
        mode_16_9 == es.mode_16_9,
    ensures
        spec_parse_at_18(text, pos, aspect, padding, radius, shadow, camera_size, camera_shape, camera_shadow, camera_mirror, camera_blur, background_type, background_preset, camera_position, shrink_16_9_cent, shrink_1_1_cent, shrink_9_16_cent, portrait_split, portrait_bottom_ratio_cent, mode_16_9) == Some(es),
{
    reveal(spec_doc_from_18);
    reveal(spec_doc_from_19);
    reveal(spec_parse_at_18);
    let w = spec_mode_word(es.mode_1_1);
    let tail = spec_doc_from_19(es);
    lemma_step(text, pos, ",\"mode_1_1\":\""@, w + ("\""@ + tail));
    let p = pos + ",\"mode_1_1\":\""@.len();
    assert(spec_expect(text, pos, ",\"mode_1_1\":\""@) == Some(p));
    lemma_mode_word_props(es.mode_1_1);
    assert(("\""@ + tail)[0] == '"') by {
        reveal_strlit("\"");
    }
    assert(("\""@ + tail).len() >= 1) by {
        reveal_strlit("\"");
    }
    lemma_char_from_run(text, p, w, "\""@ + tail, '"');
    let q = p + w.len();
    lemma_step(text, p, w, "\""@ + tail);
    assert(spec_read_word(text, p) == Some((w, q + 1)));
    lemma_step(text, q, "\""@, tail);
    let p2 = q + "\""@.len();
    assert(p2 == q + 1) by {
        reveal_strlit("\"");
    }
    assert(spec_read_mode(text, p) == Some((es.mode_1_1, q + 1)));
    lemma_parse_at_19(text, q + 1, es, aspect, padding, radius, shadow, camera_size, camera_shape, camera_shadow, camera_mirror, camera_blur, background_type, background_preset, camera_position, shrink_16_9_cent, shrink_1_1_cent, shrink_9_16_cent, portrait_split, portrait_bottom_ratio_cent, mode_16_9, es.mode_1_1);
}

/// Parsing the tail from field 17 (`mode_16_9`) recovers the state.
proof fn lemma_parse_at_17(text: Seq<char>, pos: int, es: EditState, aspect: Aspect, padding: u32, radius: u32, shadow: u32, camera_size: u32, camera_shape: CameraShape, camera_shadow: u32, camera_mirror: bool, camera_blur: bool, background_type: BackgroundType, background_preset: u32, camera_position: CameraPosition, shrink_16_9_cent: u32, shrink_1_1_cent: u32, shrink_9_16_cent: u32, portrait_split: bool, portrait_bottom_ratio_cent: u32)
    requires
        0 <= pos <= text.len(),
        es.cents_wf(),
        text.skip(pos) == spec_doc_from_17(es),
        aspect == es.aspect,
        padding == es.padding,
        radius == es.radius,
        shadow == es.shadow,
        camera_size == es.camera_size,
        camera_shape == es.camera_shape,
        camera_shadow == es.camera_shadow,
        camera_mirror == es.camera_mirror,
        camera_blur == es.camera_blur,
        background_type == es.background_type,
        background_preset == es.background_preset,
        camera_position == es.camera_position,
        shrink_16_9_cent == es.shrink_16_9_cent,
        shrink_1_1_cent == es.shrink_1_1_cent,
        shrink_9_16_cent == es.shrink_9_16_cent,
        portrait_split == es.portrait_split,
        portrait_bottom_ratio_cent == es.portrait_bottom_ratio_cent,
    ensures
        spec_parse_at_17(text, pos, aspect, padding, radius, shadow, camera_size, camera_shape, camera_shadow, camera_mirror, camera_blur, background_type, background_preset, camera_position, shrink_16_9_cent, shrink_1_1_cent, shrink_9_16_cent, portrait_split, portrait_bottom_ratio_cent) == Some(es),
{
    reveal(spec_doc_from_17);
    reveal(spec_doc_from_18);
    reveal(spec_parse_at_17);
    let w = spec_mode_word(es.mode_16_9);
    let tail = spec_doc_from_18(es);
    lemma_step(text, pos, ",\"mode_16_9\":\""@, w + ("\""@ + tail));
    let p = pos + ",\"mode_16_9\":\""@.len();
    assert(spec_expect(text, pos, ",\"mode_16_9\":\""@) == Some(p));
    lemma_mode_word_props(es.mode_16_9);
    assert(("\""@ + tail)[0] == '"') by {
        reveal_strlit("\"");
    }
    assert(("\""@ + tail).len() >= 1) by {
        reveal_strlit("\"");
    }
    lemma_char_from_run(text, p, w, "\""@ + tail, '"');
    let q = p + w.len();
    lemma_step(text, p, w, "\""@ + tail);
    assert(spec_read_word(text, p) == Some((w, q + 1)));
    lemma_step(text, q, "\""@, tail);
    let p2 = q + "\""@.len();
    assert(p2 == q + 1) by {
        reveal_strlit("\"");
    }
    assert(spec_read_mode(text, p) == Some((es.mode_16_9, q + 1)));
    lemma_parse_at_18(text, q + 1, es, aspect, padding, radius, shadow, camera_size, camera_shape, camera_shadow, camera_mirror, camera_blur, background_type, background_preset, camera_position, shrink_16_9_cent, shrink_1_1_cent, shrink_9_16_cent, portrait_split, portrait_bottom_ratio_cent, es.mode_16_9);
}

/// Parsing the tail from field 16 (`portrait_bottom_ratio_cent`) recovers the state.
proof fn lemma_parse_at_16(text: Seq<char>, pos: int, es: EditState, aspect: Aspect, padding: u32, radius: u32, shadow: u32, camera_size: u32, camera_shape: CameraShape, camera_shadow: u32, camera_mirror: bool, camera_blur: bool, background_type: BackgroundType, background_preset: u32, camera_position: CameraPosition, shrink_16_9_cent: u32, shrink_1_1_cent: u32, shrink_9_16_cent: u32, portrait_split: bool)
    requires
        0 <= pos <= text.len(),
        es.cents_wf(),
        text.skip(pos) == spec_doc_from_16(es),
        aspect == es.aspect,
        padding == es.padding,
        radius == es.radius,
        shadow == es.shadow,
        camera_size == es.camera_size,
        camera_shape == es.camera_shape,
        camera_shadow == es.camera_shadow,
        camera_mirror == es.camera_mirror,
        camera_blur == es.camera_blur,
        background_type == es.background_type,
        background_preset == es.background_preset,
        camera_position == es.camera_position,
        shrink_16_9_cent == es.shrink_16_9_cent,
        shrink_1_1_cent == es.shrink_1_1_cent,
        shrink_9_16_cent == es.shrink_9_16_cent,
        portrait_split == es.portrait_split,
    ensures
        spec_parse_at_16(text, pos, aspect, padding, radius, shadow, camera_size, camera_shape, camera_shadow, camera_mirror, camera_blur, background_type, background_preset, camera_position, shrink_16_9_cent, shrink_1_1_cent, shrink_9_16_cent, portrait_split) == Some(es),
{
    reveal(spec_doc_from_16);
    reveal(spec_doc_from_17);
    reveal(spec_parse_at_16);
    let tail = spec_doc_from_17(es);
    lemma_step(text, pos, ",\"portrait_bottom_ratio\":"@, spec_cent_str(es.portrait_bottom_ratio_cent as nat) + tail);
    let p = pos + ",\"portrait_bottom_ratio\":"@.len();
    assert(spec_expect(text, pos, ",\"portrait_bottom_ratio\":"@) == Some(p));
    assert(tail.len() >= 1 && tail[0] == ',') by {
        reveal_strlit(",\"mode_16_9\":\"");
    }
    assert(!spec_is_digit(','));
    assert(',' != '.');
    lemma_read_cent_at(text, p, es.portrait_bottom_ratio_cent as nat, tail);
    let p2 = p + spec_cent_str(es.portrait_bottom_ratio_cent as nat).len();
    assert(((es.portrait_bottom_ratio_cent as nat) as u32) == es.portrait_bottom_ratio_cent);
    lemma_parse_at_17(text, p2, es, aspect, padding, radius, shadow, camera_size, camera_shape, camera_shadow, camera_mirror, camera_blur, background_type, background_preset, camera_position, shrink_16_9_cent, shrink_1_1_cent, shrink_9_16_cent, portrait_split, es.portrait_bottom_ratio_cent);
}

/// Parsing the tail from field 15 (`portrait_split`) recovers the state.
proof fn lemma_parse_at_15(text: Seq<char>, pos: int, es: EditState, aspect: Aspect, padding: u32, radius: u32, shadow: u32, camera_size: u32, camera_shape: CameraShape, camera_shadow: u32, camera_mirror: bool, camera_blur: bool, background_type: BackgroundType, background_preset: u32, camera_position: CameraPosition, shrink_16_9_cent: u32, shrink_1_1_cent: u32, shrink_9_16_cent: u32)
    requires
        0 <= pos <= text.len(),
        es.cents_wf(),
        text.skip(pos) == spec_doc_from_15(es),
        aspect == es.aspect,
        padding == es.padding,
        radius == es.radius,
        shadow == es.shadow,
        camera_size == es.camera_size,
        camera_shape == es.camera_shape,
        camera_shadow == es.camera_shadow,
        camera_mirror == es.camera_mirror,
        camera_blur == es.camera_blur,
        background_type == es.background_type,
        background_preset == es.background_preset,
        camera_position == es.camera_position,
        shrink_16_9_cent == es.shrink_16_9_cent,
        shrink_1_1_cent == es.shrink_1_1_cent,
        shrink_9_16_cent == es.shrink_9_16_cent,
    ensures
        spec_parse_at_15(text, pos, aspect, padding, radius, shadow, camera_size, camera_shape, camera_shadow, camera_mirror, camera_blur, background_type, background_preset, camera_position, shrink_16_9_cent, shrink_1_1_cent, shrink_9_16_cent) == Some(es),
{
    reveal(spec_doc_from_15);
    reveal(spec_doc_from_16);
    reveal(spec_parse_at_15);
    let tail = spec_doc_from_16(es);
    lemma_step(text, pos, ",\"portrait_split\":"@, spec_bool_word(es.portrait_split) + tail);
    let p = pos + ",\"portrait_split\":"@.len();
    assert(spec_expect(text, pos, ",\"portrait_split\":"@) == Some(p));
    if es.portrait_split {
        lemma_step(text, p, "true"@, tail);
        assert(spec_expect(text, p, "true"@) == Some(p + "true"@.len()));
        assert(spec_read_bool(text, p) == Some((true, p + "true"@.len())));
        lemma_parse_at_16(text, p + "true"@.len(), es, aspect, padding, radius, shadow, camera_size, camera_shape, camera_shadow, camera_mirror, camera_blur, background_type, background_preset, camera_position, shrink_16_9_cent, shrink_1_1_cent, shrink_9_16_cent, true);
    } else {
        lemma_step(text, p, "false"@, tail);
        assert(spec_expect(text, p, "true"@) is None) by {
            reveal_strlit("true");
            reveal_strlit("false");
            if 0 <= p && p + "true"@.len() <= text.len() {
                assert(text.subrange(p, p + "true"@.len())[0] == text[p]);
                assert(text[p] == text.skip(p)[0]);
                assert(text.skip(p)[0] == "false"@[0]);
                assert(text.subrange(p, p + "true"@.len()) != "true"@);
            }
        }
        assert(spec_expect(text, p, "false"@) == Some(p + "false"@.len()));
        assert(spec_read_bool(text, p) == Some((false, p + "false"@.len())));
        lemma_parse_at_16(text, p + "false"@.len(), es, aspect, padding, radius, shadow, camera_size, camera_shape, camera_shadow, camera_mirror, camera_blur, background_type, background_preset, camera_position, shrink_16_9_cent, shrink_1_1_cent, shrink_9_16_cent, false);
    }
}

/// Parsing the tail from field 14 (`shrink_9_16_cent`) recovers the state.
proof fn lemma_parse_at_14(text: Seq<char>, pos: int, es: EditState, aspect: Aspect, padding: u32, radius: u32, shadow: u32, camera_size: u32, camera_shape: CameraShape, camera_shadow: u32, camera_mirror: bool, camera_blur: bool, background_type: BackgroundType, background_preset: u32, camera_position: CameraPosition, shrink_16_9_cent: u32, shrink_1_1_cent: u32)
    requires
        0 <= pos <= text.len(),
        es.cents_wf(),
        text.skip(pos) == spec_doc_from_14(es),
        aspect == es.aspect,
        padding == es.padding,
        radius == es.radius,
        shadow == es.shadow,
        camera_size == es.camera_size,
        camera_shape == es.camera_shape,
        camera_shadow == es.camera_shadow,
        camera_mirror == es.camera_mirror,
        camera_blur == es.camera_blur,
        background_type == es.background_type,
        background_preset == es.background_preset,
        camera_position == es.camera_position,
        shrink_16_9_cent == es.shrink_16_9_cent,
        shrink_1_1_cent == es.shrink_1_1_cent,
    ensures
        spec_parse_at_14(text, pos, aspect, padding, radius, shadow, camera_size, camera_shape, camera_shadow, camera_mirror, camera_blur, background_type, background_preset, camera_position, shrink_16_9_cent, shrink_1_1_cent) == Some(es),
{
    reveal(spec_doc_from_14);
    reveal(spec_doc_from_15);
    reveal(spec_parse_at_14);
    let tail = spec_doc_from_15(es);
    lemma_step(text, pos, ",\"shrink_9_16\":"@, spec_cent_str(es.shrink_9_16_cent as nat) + tail);
    let p = pos + ",\"shrink_9_16\":"@.len();
    assert(spec_expect(text, pos, ",\"shrink_9_16\":"@) == Some(p));
    assert(tail.len() >= 1 && tail[0] == ',') by {
        reveal_strlit(",\"portrait_split\":");
    }
    assert(!spec_is_digit(','));
    assert(',' != '.');
    lemma_read_cent_at(text, p, es.shrink_9_16_cent as nat, tail);
    let p2 = p + spec_cent_str(es.shrink_9_16_cent as nat).len();
    assert(((es.shrink_9_16_cent as nat) as u32) == es.shrink_9_16_cent);
    lemma_parse_at_15(text, p2, es, aspect, padding, radius, shadow, camera_size, camera_shape, camera_shadow, camera_mirror, camera_blur, background_type, background_preset, camera_position, shrink_16_9_cent, shrink_1_1_cent, es.shrink_9_16_cent);
}

/// Parsing the tail from field 13 (`shrink_1_1_cent`) recovers the state.
proof fn lemma_parse_at_13(text: Seq<char>, pos: int, es: EditState, aspect: Aspect, padding: u32, radius: u32, shadow: u32, camera_size: u32, camera_shape: CameraShape, camera_shadow: u32, camera_mirror: bool, camera_blur: bool, background_type: BackgroundType, background_preset: u32, camera_position: CameraPosition, shrink_16_9_cent: u32)
    requires
        0 <= pos <= text.len(),
        es.cents_wf(),
        text.skip(pos) == spec_doc_from_13(es),
        aspect == es.aspect,
        padding == es.padding,
        radius == es.radius,
        shadow == es.shadow,
        camera_size == es.camera_size,
        camera_shape == es.camera_shape,
        camera_shadow == es.camera_shadow,
        camera_mirror == es.camera_mirror,
        camera_blur == es.camera_blur,
        background_type == es.background_type,
        background_preset == es.background_preset,
        camera_position == es.camera_position,
        shrink_16_9_cent == es.shrink_16_9_cent,
    ensures
        spec_parse_at_13(text, pos, aspect, padding, radius, shadow, camera_size, camera_shape, camera_shadow, camera_mirror, camera_blur, background_type, background_preset, camera_position, shrink_16_9_cent) == Some(es),
{
    reveal(spec_doc_from_13);
    reveal(spec_doc_from_14);
    reveal(spec_parse_at_13);
    let tail = spec_doc_from_14(es);
    lemma_step(text, pos, ",\"shrink_1_1\":"@, spec_cent_str(es.shrink_1_1_cent as nat) + tail);
    let p = pos + ",\"shrink_1_1\":"@.len();
    assert(spec_expect(text, pos, ",\"shrink_1_1\":"@) == Some(p));
    assert(tail.len() >= 1 && tail[0] == ',') by {
        reveal_strlit(",\"shrink_9_16\":");
    }
    assert(!spec_is_digit(','));
    assert(',' != '.');
    lemma_read_cent_at(text, p, es.shrink_1_1_cent as nat, tail);
    let p2 = p + spec_cent_str(es.shrink_1_1_cent as nat).len();
    assert(((es.shrink_1_1_cent as nat) as u32) == es.shrink_1_1_cent);
    lemma_parse_at_14(text, p2, es, aspect, padding, radius, shadow, camera_size, camera_shape, camera_shadow, camera_mirror, camera_blur, background_type, background_preset, camera_position, shrink_16_9_cent, es.shrink_1_1_cent);
}

/// Parsing the tail from field 12 (`shrink_16_9_cent`) recovers the state.
proof fn lemma_parse_at_12(text: Seq<char>, pos: int, es: EditState, aspect: Aspect, padding: u32, radius: u32, shadow: u32, camera_size: u32, camera_shape: CameraShape, camera_shadow: u32, camera_mirror: bool, camera_blur: bool, background_type: BackgroundType, background_preset: u32, camera_position: CameraPosition)
    requires
        0 <= pos <= text.len(),
        es.cents_wf(),
        text.skip(pos) == spec_doc_from_12(es),
        aspect == es.aspect,
        padding == es.padding,
        radius == es.radius,
        shadow == es.shadow,
        camera_size == es.camera_size,
        camera_shape == es.camera_shape,
        camera_shadow == es.camera_shadow,
        camera_mirror == es.camera_mirror,
        camera_blur == es.camera_blur,
        background_type == es.background_type,
        background_preset == es.background_preset,
        camera_position == es.camera_position,
    ensures
        spec_parse_at_12(text, pos, aspect, padding, radius, shadow, camera_size, camera_shape, camera_shadow, camera_mirror, camera_blur, background_type, background_preset, camera_position) == Some(es),
{
    reveal(spec_doc_from_12);
    reveal(spec_doc_from_13);
    reveal(spec_parse_at_12);
    let tail = spec_doc_from_13(es);
    lemma_step(text, pos, ",\"shrink_16_9\":"@, spec_cent_str(es.shrink_16_9_cent as nat) + tail);
    let p = pos + ",\"shrink_16_9\":"@.len();
    assert(spec_expect(text, pos, ",\"shrink_16_9\":"@) == Some(p));
    assert(tail.len() >= 1 && tail[0] == ',') by {
        reveal_strlit(",\"shrink_1_1\":");
    }
    assert(!spec_is_digit(','));
    assert(',' != '.');
    lemma_read_cent_at(text, p, es.shrink_16_9_cent as nat, tail);
    let p2 = p + spec_cent_str(es.shrink_16_9_cent as nat).len();
    assert(((es.shrink_16_9_cent as nat) as u32) == es.shrink_16_9_cent);
    lemma_parse_at_13(text, p2, es, aspect, padding, radius, shadow, camera_size, camera_shape, camera_shadow, camera_mirror, camera_blur, background_type, background_preset, camera_position, es.shrink_16_9_cent);
}

/// Parsing the tail from field 11 (`camera_position`) recovers the state.
proof fn lemma_parse_at_11(text: Seq<char>, pos: int, es: EditState, aspect: Aspect, padding: u32, radius: u32, shadow: u32, camera_size: u32, camera_shape: CameraShape, camera_shadow: u32, camera_mirror: bool, camera_blur: bool, background_type: BackgroundType, background_preset: u32)
    requires
        0 <= pos <= text.len(),
        es.cents_wf(),
        text.skip(pos) == spec_doc_from_11(es),
        aspect == es.aspect,
        padding == es.padding,
        radius == es.radius,
        shadow == es.shadow,
        camera_size == es.camera_size,
        camera_shape == es.camera_shape,
        camera_shadow == es.camera_shadow,
        camera_mirror == es.camera_mirror,
        camera_blur == es.camera_blur,
        background_type == es.background_type,
        background_preset == es.background_preset,
    ensures
        spec_parse_at_11(text, pos, aspect, padding, radius, shadow, camera_size, camera_shape, camera_shadow, camera_mirror, camera_blur, background_type, background_preset) == Some(es),
{
    reveal(spec_doc_from_11);
    reveal(spec_doc_from_12);
    reveal(spec_parse_at_11);
    let w = spec_pos_word(es.camera_position);
    let tail = spec_doc_from_12(es);
    lemma_step(text, pos, ",\"camera_position\":\""@, w + ("\""@ + tail));
    let p = pos + ",\"camera_position\":\""@.len();
    assert(spec_expect(text, pos, ",\"camera_position\":\""@) == Some(p));
    lemma_pos_word_props(es.camera_position);
    assert(("\""@ + tail)[0] == '"') by {
        reveal_strlit("\"");
    }
    assert(("\""@ + tail).len() >= 1) by {
        reveal_strlit("\"");
    }
    lemma_char_from_run(text, p, w, "\""@ + tail, '"');
    let q = p + w.len();
    lemma_step(text, p, w, "\""@ + tail);
    assert(spec_read_word(text, p) == Some((w, q + 1)));
    lemma_step(text, q, "\""@, tail);
    let p2 = q + "\""@.len();
    assert(p2 == q + 1) by {
        reveal_strlit("\"");
    }
    assert(spec_read_pos(text, p) == Some((es.camera_position, q + 1)));
    lemma_parse_at_12(text, q + 1, es, aspect, padding, radius, shadow, camera_size, camera_shape, camera_shadow, camera_mirror, camera_blur, background_type, background_preset, es.camera_position);
}

/// Parsing the tail from field 10 (`background_preset`) recovers the state.
proof fn lemma_parse_at_10(text: Seq<char>, pos: int, es: EditState, aspect: Aspect, padding: u32, radius: u32, shadow: u32, camera_size: u32, camera_shape: CameraShape, camera_shadow: u32, camera_mirror: bool, camera_blur: bool, background_type: BackgroundType)
    requires
        0 <= pos <= text.len(),
        es.cents_wf(),
        text.skip(pos) == spec_doc_from_10(es),
        aspect == es.aspect,
        padding == es.padding,
        radius == es.radius,
        shadow == es.shadow,
        camera_size == es.camera_size,
        camera_shape == es.camera_shape,
        camera_shadow == es.camera_shadow,
        camera_mirror == es.camera_mirror,
        camera_blur == es.camera_blur,
        background_type == es.background_type,
    ensures
        spec_parse_at_10(text, pos, aspect, padding, radius, shadow, camera_size, camera_shape, camera_shadow, camera_mirror, camera_blur, background_type) == Some(es),
{
    reveal(spec_doc_from_10);
    reveal(spec_doc_from_11);
    reveal(spec_parse_at_10);
    let tail = spec_doc_from_11(es);
    lemma_step(text, pos, ",\"background_preset\":"@, spec_u64_str(es.background_preset as nat) + tail);
    let p = pos + ",\"background_preset\":"@.len();
    assert(spec_expect(text, pos, ",\"background_preset\":"@) == Some(p));
    assert(tail.len() >= 1 && tail[0] == ',') by {
        reveal_strlit(",\"camera_position\":\"");
    }
    assert(!spec_is_digit(','));
    lemma_read_uint_at(text, p, es.background_preset as nat, tail);
    let p2 = p + spec_u64_str(es.background_preset as nat).len();
    assert(((es.background_preset as nat) as u32) == es.background_preset);
    lemma_parse_at_11(text, p2, es, aspect, padding, radius, shadow, camera_size, camera_shape, camera_shadow, camera_mirror, camera_blur, background_type, es.background_preset);
}

/// Parsing the tail from field 9 (`background_type`) recovers the state.
proof fn lemma_parse_at_9(text: Seq<char>, pos: int, es: EditState, aspect: Aspect, padding: u32, radius: u32, shadow: u32, camera_size: u32, camera_shape: CameraShape, camera_shadow: u32, camera_mirror: bool, camera_blur: bool)
    requires
        0 <= pos <= text.len(),
        es.cents_wf(),
        text.skip(pos) == spec_doc_from_9(es),
        aspect == es.aspect,
        padding == es.padding,
        radius == es.radius,
        shadow == es.shadow,
        camera_size == es.camera_size,
        camera_shape == es.camera_shape,
        camera_shadow == es.camera_shadow,
        camera_mirror == es.camera_mirror,
        camera_blur == es.camera_blur,
    ensures
        spec_parse_at_9(text, pos, aspect, padding, radius, shadow, camera_size, camera_shape, camera_shadow, camera_mirror, camera_blur) == Some(es),
{
    reveal(spec_doc_from_9);
    reveal(spec_doc_from_10);
    reveal(spec_parse_at_9);
    let w = spec_bg_word(es.background_type);
    let tail = spec_doc_from_10(es);
    lemma_step(text, pos, ",\"background_type\":\""@, w + ("\""@ + tail));
    let p = pos + ",\"background_type\":\""@.len();
    assert(spec_expect(text, pos, ",\"background_type\":\""@) == Some(p));
    lemma_bg_word_props(es.background_type);
    assert(("\""@ + tail)[0] == '"') by {
        reveal_strlit("\"");
    }
    assert(("\""@ + tail).len() >= 1) by {
        reveal_strlit("\"");
    }
    lemma_char_from_run(text, p, w, "\""@ + tail, '"');
    let q = p + w.len();
    lemma_step(text, p, w, "\""@ + tail);
    assert(spec_read_word(text, p) == Some((w, q + 1)));
    lemma_step(text, q, "\""@, tail);
    let p2 = q + "\""@.len();
    assert(p2 == q + 1) by {
        reveal_strlit("\"");
    }
    assert(spec_read_bg(text, p) == Some((es.background_type, q + 1)));
    lemma_parse_at_10(text, q + 1, es, aspect, padding, radius, shadow, camera_size, camera_shape, camera_shadow, camera_mirror, camera_blur, es.background_type);
}

/// Parsing the tail from field 8 (`camera_blur`) recovers the state.
proof fn lemma_parse_at_8(text: Seq<char>, pos: int, es: EditState, aspect: Aspect, padding: u32, radius: u32, shadow: u32, camera_size: u32, camera_shape: CameraShape, camera_shadow: u32, camera_mirror: bool)
    requires
        0 <= pos <= text.len(),
        es.cents_wf(),
        text.skip(pos) == spec_doc_from_8(es),
        aspect == es.aspect,
        padding == es.padding,
        radius == es.radius,
        shadow == es.shadow,
        camera_size == es.camera_size,
        camera_shape == es.camera_shape,
        camera_shadow == es.camera_shadow,
        camera_mirror == es.camera_mirror,
    ensures
        spec_parse_at_8(text, pos, aspect, padding, radius, shadow, camera_size, camera_shape, camera_shadow, camera_mirror) == Some(es),
{
    reveal(spec_doc_from_8);
    reveal(spec_doc_from_9);
    reveal(spec_parse_at_8);
    let tail = spec_doc_from_9(es);
    lemma_step(text, pos, ",\"camera_blur\":"@, spec_bool_word(es.camera_blur) + tail);
    let p = pos + ",\"camera_blur\":"@.len();
    assert(spec_expect(text, pos, ",\"camera_blur\":"@) == Some(p));
    if es.camera_blur {
        lemma_step(text, p, "true"@, tail);
        assert(spec_expect(text, p, "true"@) == Some(p + "true"@.len()));
        assert(spec_read_bool(text, p) == Some((true, p + "true"@.len())));
        lemma_parse_at_9(text, p + "true"@.len(), es, aspect, padding, radius, shadow, camera_size, camera_shape, camera_shadow, camera_mirror, true);
    } else {
        lemma_step(text, p, "false"@, tail);
        assert(spec_expect(text, p, "true"@) is None) by {
            reveal_strlit("true");
            reveal_strlit("false");
            if 0 <= p && p + "true"@.len() <= text.len() {
                assert(text.subrange(p, p + "true"@.len())[0] == text[p]);
                assert(text[p] == text.skip(p)[0]);
                assert(text.skip(p)[0] == "false"@[0]);
                assert(text.subrange(p, p + "true"@.len()) != "true"@);
            }
        }
        assert(spec_expect(text, p, "false"@) == Some(p + "false"@.len()));
        assert(spec_read_bool(text, p) == Some((false, p + "false"@.len())));
        lemma_parse_at_9(text, p + "false"@.len(), es, aspect, padding, radius, shadow, camera_size, camera_shape, camera_shadow, camera_mirror, false);
    }
}

/// Parsing the tail from field 7 (`camera_mirror`) recovers the state.
proof fn lemma_parse_at_7(text: Seq<char>, pos: int, es: EditState, aspect: Aspect, padding: u32, radius: u32, shadow: u32, camera_size: u32, camera_shape: CameraShape, camera_shadow: u32)
    requires
        0 <= pos <= text.len(),
        es.cents_wf(),
        text.skip(pos) == spec_doc_from_7(es),
        aspect == es.aspect,
        padding == es.padding,
        radius == es.radius,
        shadow == es.shadow,
        camera_size == es.camera_size,
        camera_shape == es.camera_shape,
        camera_shadow == es.camera_shadow,
    ensures
        spec_parse_at_7(text, pos, aspect, padding, radius, shadow, camera_size, camera_shape, camera_shadow) == Some(es),
{
    reveal(spec_doc_from_7);
    reveal(spec_doc_from_8);
    reveal(spec_parse_at_7);
    let tail = spec_doc_from_8(es);
    lemma_step(text, pos, ",\"camera_mirror\":"@, spec_bool_word(es.camera_mirror) + tail);
    let p = pos + ",\"camera_mirror\":"@.len();
    assert(spec_expect(text, pos, ",\"camera_mirror\":"@) == Some(p));
    if es.camera_mirror {
        lemma_step(text, p, "true"@, tail);
        assert(spec_expect(text, p, "true"@) == Some(p + "true"@.len()));
        assert(spec_read_bool(text, p) == Some((true, p + "true"@.len())));
        lemma_parse_at_8(text, p + "true"@.len(), es, aspect, padding, radius, shadow, camera_size, camera_shape, camera_shadow, true);
    } else {
        lemma_step(text, p, "false"@, tail);
        assert(spec_expect(text, p, "true"@) is None) by {
            reveal_strlit("true");
            reveal_strlit("false");
            if 0 <= p && p + "true"@.len() <= text.len() {
                assert(text.subrange(p, p + "true"@.len())[0] == text[p]);
                assert(text[p] == text.skip(p)[0]);
                assert(text.skip(p)[0] == "false"@[0]);
                assert(text.subrange(p, p + "true"@.len()) != "true"@);
            }
        }
        assert(spec_expect(text, p, "false"@) == Some(p + "false"@.len()));
        assert(spec_read_bool(text, p) == Some((false, p + "false"@.len())));
        lemma_parse_at_8(text, p + "false"@.len(), es, aspect, padding, radius, shadow, camera_size, camera_shape, camera_shadow, false);
    }
}

/// Parsing the tail from field 6 (`camera_shadow`) recovers the state.
proof fn lemma_parse_at_6(text: Seq<char>, pos: int, es: EditState, aspect: Aspect, padding: u32, radius: u32, shadow: u32, camera_size: u32, camera_shape: CameraShape)
    requires
        0 <= pos <= text.len(),
        es.cents_wf(),
        text.skip(pos) == spec_doc_from_6(es),
        aspect == es.aspect,
        padding == es.padding,
        radius == es.radius,
        shadow == es.shadow,
        camera_size == es.camera_size,
        camera_shape == es.camera_shape,
    ensures
        spec_parse_at_6(text, pos, aspect, padding, radius, shadow, camera_size, camera_shape) == Some(es),
{
    reveal(spec_doc_from_6);
    reveal(spec_doc_from_7);
    reveal(spec_parse_at_6);
    let tail = spec_doc_from_7(es);
    lemma_step(text, pos, ",\"camera_shadow\":"@, spec_u64_str(es.camera_shadow as nat) + tail);
    let p = pos + ",\"camera_shadow\":"@.len();
    assert(spec_expect(text, pos, ",\"camera_shadow\":"@) == Some(p));
    assert(tail.len() >= 1 && tail[0] == ',') by {
        reveal_strlit(",\"camera_mirror\":");
    }
    assert(!spec_is_digit(','));
    lemma_read_uint_at(text, p, es.camera_shadow as nat, tail);
    let p2 = p + spec_u64_str(es.camera_shadow as nat).len();
    assert(((es.camera_shadow as nat) as u32) == es.camera_shadow);
    lemma_parse_at_7(text, p2, es, aspect, padding, radius, shadow, camera_size, camera_shape, es.camera_shadow);
}

/// Parsing the tail from field 5 (`camera_shape`) recovers the state.
proof fn lemma_parse_at_5(text: Seq<char>, pos: int, es: EditState, aspect: Aspect, padding: u32, radius: u32, shadow: u32, camera_size: u32)
    requires
        0 <= pos <= text.len(),
        es.cents_wf(),
        text.skip(pos) == spec_doc_from_5(es),
        aspect == es.aspect,
        padding == es.padding,
        radius == es.radius,
        shadow == es.shadow,
        camera_size == es.camera_size,
    ensures
        spec_parse_at_5(text, pos, aspect, padding, radius, shadow, camera_size) == Some(es),
{
    reveal(spec_doc_from_5);
    reveal(spec_doc_from_6);
    reveal(spec_parse_at_5);
    let w = spec_shape_word(es.camera_shape);
    let tail = spec_doc_from_6(es);
    lemma_step(text, pos, ",\"camera_shape\":\""@, w + ("\""@ + tail));
    let p = pos + ",\"camera_shape\":\""@.len();
    assert(spec_expect(text, pos, ",\"camera_shape\":\""@) == Some(p));
    lemma_shape_word_props(es.camera_shape);
    assert(("\""@ + tail)[0] == '"') by {
        reveal_strlit("\"");
    }
    assert(("\""@ + tail).len() >= 1) by {
        reveal_strlit("\"");
    }
    lemma_char_from_run(text, p, w, "\""@ + tail, '"');
    let q = p + w.len();
    lemma_step(text, p, w, "\""@ + tail);
    assert(spec_read_word(text, p) == Some((w, q + 1)));
    lemma_step(text, q, "\""@, tail);
    let p2 = q + "\""@.len();
    assert(p2 == q + 1) by {
        reveal_strlit("\"");
    }
    assert(spec_read_shape(text, p) == Some((es.camera_shape, q + 1)));
    lemma_parse_at_6(text, q + 1, es, aspect, padding, radius, shadow, camera_size, es.camera_shape);
}

/// Parsing the tail from field 4 (`camera_size`) recovers the state.
proof fn lemma_parse_at_4(text: Seq<char>, pos: int, es: EditState, aspect: Aspect, padding: u32, radius: u32, shadow: u32)
    requires
        0 <= pos <= text.len(),
        es.cents_wf(),
        text.skip(pos) == spec_doc_from_4(es),
        aspect == es.aspect,
        padding == es.padding,
        radius == es.radius,
        shadow == es.shadow,
    ensures
        spec_parse_at_4(text, pos, aspect, padding, radius, shadow) == Some(es),
{
    reveal(spec_doc_from_4);
    reveal(spec_doc_from_5);
    reveal(spec_parse_at_4);
    let tail = spec_doc_from_5(es);
    lemma_step(text, pos, ",\"camera_size\":"@, spec_u64_str(es.camera_size as nat) + tail);
    let p = pos + ",\"camera_size\":"@.len();
    assert(spec_expect(text, pos, ",\"camera_size\":"@) == Some(p));
    assert(tail.len() >= 1 && tail[0] == ',') by {
        reveal_strlit(",\"camera_shape\":\"");
    }
    assert(!spec_is_digit(','));
    lemma_read_uint_at(text, p, es.camera_size as nat, tail);
    let p2 = p + spec_u64_str(es.camera_size as nat).len();
    assert(((es.camera_size as nat) as u32) == es.camera_size);
    lemma_parse_at_5(text, p2, es, aspect, padding, radius, shadow, es.camera_size);
}

/// Parsing the tail from field 3 (`shadow`) recovers the state.
proof fn lemma_parse_at_3(text: Seq<char>, pos: int, es: EditState, aspect: Aspect, padding: u32, radius: u32)
    requires
        0 <= pos <= text.len(),
        es.cents_wf(),
        text.skip(pos) == spec_doc_from_3(es),
        aspect == es.aspect,
        padding == es.padding,
        radius == es.radius,
    ensures
        spec_parse_at_3(text, pos, aspect, padding, radius) == Some(es),
{
    reveal(spec_doc_from_3);
    reveal(spec_doc_from_4);
    reveal(spec_parse_at_3);
    let tail = spec_doc_from_4(es);
    lemma_step(text, pos, ",\"shadow\":"@, spec_u64_str(es.shadow as nat) + tail);
    let p = pos + ",\"shadow\":"@.len();
    assert(spec_expect(text, pos, ",\"shadow\":"@) == Some(p));
    assert(tail.len() >= 1 && tail[0] == ',') by {
        reveal_strlit(",\"camera_size\":");
    }
    assert(!spec_is_digit(','));
    lemma_read_uint_at(text, p, es.shadow as nat, tail);
    let p2 = p + spec_u64_str(es.shadow as nat).len();
    assert(((es.shadow as nat) as u32) == es.shadow);
    lemma_parse_at_4(text, p2, es, aspect, padding, radius, es.shadow);
}

/// Parsing the tail from field 2 (`radius`) recovers the state.
proof fn lemma_parse_at_2(text: Seq<char>, pos: int, es: EditState, aspect: Aspect, padding: u32)
    requires
        0 <= pos <= text.len(),
        es.cents_wf(),
        text.skip(pos) == spec_doc_from_2(es),
        aspect == es.aspect,
        padding == es.padding,
    ensures
        spec_parse_at_2(text, pos, aspect, padding) == Some(es),
{
    reveal(spec_doc_from_2);
    reveal(spec_doc_from_3);
    reveal(spec_parse_at_2);
    let tail = spec_doc_from_3(es);
    lemma_step(text, pos, ",\"radius\":"@, spec_u64_str(es.radius as nat) + tail);
    let p = pos + ",\"radius\":"@.len();
    assert(spec_expect(text, pos, ",\"radius\":"@) == Some(p));
    assert(tail.len() >= 1 && tail[0] == ',') by {
        reveal_strlit(",\"shadow\":");
    }
    assert(!spec_is_digit(','));
    lemma_read_uint_at(text, p, es.radius as nat, tail);
    let p2 = p + spec_u64_str(es.radius as nat).len();
    assert(((es.radius as nat) as u32) == es.radius);
    lemma_parse_at_3(text, p2, es, aspect, padding, es.radius);
}

/// Parsing the tail from field 1 (`padding`) recovers the state.
proof fn lemma_parse_at_1(text: Seq<char>, pos: int, es: EditState, aspect: Aspect)
    requires
        0 <= pos <= text.len(),
        es.cents_wf(),
        text.skip(pos) == spec_doc_from_1(es),
        aspect == es.aspect,
    ensures
        spec_parse_at_1(text, pos, aspect) == Some(es),
{
    reveal(spec_doc_from_1);
    reveal(spec_doc_from_2);
    reveal(spec_parse_at_1);
    let tail = spec_doc_from_2(es);
    lemma_step(text, pos, ",\"padding\":"@, spec_u64_str(es.padding as nat) + tail);
    let p = pos + ",\"padding\":"@.len();
    assert(spec_expect(text, pos, ",\"padding\":"@) == Some(p));
    assert(tail.len() >= 1 && tail[0] == ',') by {
        reveal_strlit(",\"radius\":");
    }
    assert(!spec_is_digit(','));
    lemma_read_uint_at(text, p, es.padding as nat, tail);
    let p2 = p + spec_u64_str(es.padding as nat).len();
    assert(((es.padding as nat) as u32) == es.padding);
    lemma_parse_at_2(text, p2, es, aspect, es.padding);
}

/// Parsing the tail from field 0 (`aspect`) recovers the state.
proof fn lemma_parse_at_0(text: Seq<char>, pos: int, es: EditState)
    requires
        0 <= pos <= text.len(),
        es.cents_wf(),
        text.skip(pos) == spec_doc_from_0(es),
    ensures
        spec_parse_at_0(text, pos) == Some(es),
{
    reveal(spec_doc_from_0);
    reveal(spec_doc_from_1);
    reveal(spec_parse_at_0);
    let w = spec_aspect_word(es.aspect);
    let tail = spec_doc_from_1(es);
    lemma_step(text, pos, "{\"aspect\":\""@, w + ("\""@ + tail));
    let p = pos + "{\"aspect\":\""@.len();
    assert(spec_expect(text, pos, "{\"aspect\":\""@) == Some(p));
    lemma_aspect_word_props(es.aspect);
    assert(("\""@ + tail)[0] == '"') by {
        reveal_strlit("\"");
    }
    assert(("\""@ + tail).len() >= 1) by {
        reveal_strlit("\"");
    }
    lemma_char_from_run(text, p, w, "\""@ + tail, '"');
    let q = p + w.len();
    lemma_step(text, p, w, "\""@ + tail);
    assert(spec_read_word(text, p) == Some((w, q + 1)));
    lemma_step(text, q, "\""@, tail);
    let p2 = q + "\""@.len();
    assert(p2 == q + 1) by {
        reveal_strlit("\"");
    }
    assert(spec_read_aspect(text, p) == Some((es.aspect, q + 1)));
    lemma_parse_at_1(text, q + 1, es, es.aspect);
}

/// The round trip of the edit state: loading what was saved returns the
/// saved state. Parsing the printed document recovers every field.
pub proof fn lemma_edit_state_round_trip(es: EditState)
    requires
        es.cents_wf(),
    ensures
        spec_parse_edit_state(spec_edit_state_json(es)) == Some(es),
{
    let text = spec_edit_state_json(es);
    lemma_doc_decompose(es);
    assert(text.skip(0) =~= text);
    lemma_parse_at_0(text, 0, es);
}

/// Parses the later document fields; exactly the specified parse.
#[verifier::loop_isolation(false)]
#[verifier::rlimit(100)]
#[verifier::spinoff_prover]
fn raw_parse_tail(text: &str, start: usize, v_aspect: Aspect, v_padding: u32, v_radius: u32, v_shadow: u32, v_camera_size: u32, v_camera_shape: CameraShape, v_camera_shadow: u32, v_camera_mirror: bool, v_camera_blur: bool, v_background_type: BackgroundType, v_background_preset: u32, v_camera_position: CameraPosition, v_shrink_16_9_cent: u32) -> (r: Option<EditState>)
    requires
        start <= text@.len(),
    ensures
        r == spec_parse_at_13(text@, start as int, v_aspect, v_padding, v_radius, v_shadow, v_camera_size, v_camera_shape, v_camera_shadow, v_camera_mirror, v_camera_blur, v_background_type, v_background_preset, v_camera_position, v_shrink_16_9_cent),
{
    let n = text.unicode_len();
    let mut pos: usize = start;
    proof {
        reveal(spec_parse_at_13);
        assert(spec_parse_at_13(text@, start as int, v_aspect, v_padding, v_radius, v_shadow, v_camera_size, v_camera_shape, v_camera_shadow, v_camera_mirror, v_camera_blur, v_background_type, v_background_preset, v_camera_position, v_shrink_16_9_cent) == spec_parse_at_13(text@, pos as int, v_aspect, v_padding, v_radius, v_shadow, v_camera_size, v_camera_shape, v_camera_shadow, v_camera_mirror, v_camera_blur, v_background_type, v_background_preset, v_camera_position, v_shrink_16_9_cent));
    }
    let p = match expect(text, pos, ",\"shrink_1_1\":") {
        Some(p) => p,
        None => {
            proof {
                reveal(spec_parse_at_13);
                assert(spec_parse_at_13(text@, pos as int, v_aspect, v_padding, v_radius, v_shadow, v_camera_size, v_camera_shape, v_camera_shadow, v_camera_mirror, v_camera_blur, v_background_type, v_background_preset, v_camera_position, v_shrink_16_9_cent) is None);
            }
            return None;
        },
    };
    let (v_shrink_1_1_cent, p2) = match read_cent(text, p) {
        Some(x) => x,
        None => {
            proof {
                reveal(spec_parse_at_13);
                assert(spec_parse_at_13(text@, pos as int, v_aspect, v_padding, v_radius, v_shadow, v_camera_size, v_camera_shape, v_camera_shadow, v_camera_mirror, v_camera_blur, v_background_type, v_background_preset, v_camera_position, v_shrink_16_9_cent) is None);
            }
            return None;
        },
    };
    proof {
        reveal(spec_parse_at_13);
        assert(spec_parse_at_13(text@, pos as int, v_aspect, v_padding, v_radius, v_shadow, v_camera_size, v_camera_shape, v_camera_shadow, v_camera_mirror, v_camera_blur, v_background_type, v_background_preset, v_camera_position, v_shrink_16_9_cent) == spec_parse_at_14(text@, p2 as int, v_aspect, v_padding, v_radius, v_shadow, v_camera_size, v_camera_shape, v_camera_shadow, v_camera_mirror, v_camera_blur, v_background_type, v_background_preset, v_camera_position, v_shrink_16_9_cent, v_shrink_1_1_cent));
    }
    let pos = p2;
    let p = match expect(text, pos, ",\"shrink_9_16\":") {
        Some(p) => p,
        None => {
            proof {
                reveal(spec_parse_at_14);
                assert(spec_parse_at_14(text@, pos as int, v_aspect, v_padding, v_radius, v_shadow, v_camera_size, v_camera_shape, v_camera_shadow, v_camera_mirror, v_camera_blur, v_background_type, v_background_preset, v_camera_position, v_shrink_16_9_cent, v_shrink_1_1_cent) is None);
            }
            return None;
        },
    };
    let (v_shrink_9_16_cent, p2) = match read_cent(text, p) {
        Some(x) => x,
        None => {
            proof {
                reveal(spec_parse_at_14);
                assert(spec_parse_at_14(text@, pos as int, v_aspect, v_padding, v_radius, v_shadow, v_camera_size, v_camera_shape, v_camera_shadow, v_camera_mirror, v_camera_blur, v_background_type, v_background_preset, v_camera_position, v_shrink_16_9_cent, v_shrink_1_1_cent) is None);
            }
            return None;
        },
    };
    proof {
        reveal(spec_parse_at_14);
        assert(spec_parse_at_14(text@, pos as int, v_aspect, v_padding, v_radius, v_shadow, v_camera_size, v_camera_shape, v_camera_shadow, v_camera_mirror, v_camera_blur, v_background_type, v_background_preset, v_camera_position, v_shrink_16_9_cent, v_shrink_1_1_cent) == spec_parse_at_15(text@, p2 as int, v_aspect, v_padding, v_radius, v_shadow, v_camera_size, v_camera_shape, v_camera_shadow, v_camera_mirror, v_camera_blur, v_background_type, v_background_preset, v_camera_position, v_shrink_16_9_cent, v_shrink_1_1_cent, v_shrink_9_16_cent));
    }
    let pos = p2;
    let p = match expect(text, pos, ",\"portrait_split\":") {
        Some(p) => p,
        None => {
            proof {
                reveal(spec_parse_at_15);
                assert(spec_parse_at_15(text@, pos as int, v_aspect, v_padding, v_radius, v_shadow, v_camera_size, v_camera_shape, v_camera_shadow, v_camera_mirror, v_camera_blur, v_background_type, v_background_preset, v_camera_position, v_shrink_16_9_cent, v_shrink_1_1_cent, v_shrink_9_16_cent) is None);
            }
            return None;
        },
    };
    let (v_portrait_split, p2) = match read_bool(text, p) {
        Some(x) => x,
        None => {
            proof {
                reveal(spec_parse_at_15);
                assert(spec_parse_at_15(text@, pos as int, v_aspect, v_padding, v_radius, v_shadow, v_camera_size, v_camera_shape, v_camera_shadow, v_camera_mirror, v_camera_blur, v_background_type, v_background_preset, v_camera_position, v_shrink_16_9_cent, v_shrink_1_1_cent, v_shrink_9_16_cent) is None);
            }
            return None;
        },
    };
    proof {
        reveal(spec_parse_at_15);
        assert(spec_parse_at_15(text@, pos as int, v_aspect, v_padding, v_radius, v_shadow, v_camera_size, v_camera_shape, v_camera_shadow, v_camera_mirror, v_camera_blur, v_background_type, v_background_preset, v_camera_position, v_shrink_16_9_cent, v_shrink_1_1_cent, v_shrink_9_16_cent) == spec_parse_at_16(text@, p2 as int, v_aspect, v_padding, v_radius, v_shadow, v_camera_size, v_camera_shape, v_camera_shadow, v_camera_mirror, v_camera_blur, v_background_type, v_background_preset, v_camera_position, v_shrink_16_9_cent, v_shrink_1_1_cent, v_shrink_9_16_cent, v_portrait_split));
    }
    let pos = p2;
    let p = match expect(text, pos, ",\"portrait_bottom_ratio\":") {
        Some(p) => p,
        None => {
            proof {
                reveal(spec_parse_at_16);
                assert(spec_parse_at_16(text@, pos as int, v_aspect, v_padding, v_radius, v_shadow, v_camera_size, v_camera_shape, v_camera_shadow, v_camera_mirror, v_camera_blur, v_background_type, v_background_preset, v_camera_position, v_shrink_16_9_cent, v_shrink_1_1_cent, v_shrink_9_16_cent, v_portrait_split) is None);
            }
            return None;
        },
    };
    let (v_portrait_bottom_ratio_cent, p2) = match read_cent(text, p) {
        Some(x) => x,
        None => {
            proof {
                reveal(spec_parse_at_16);
                assert(spec_parse_at_16(text@, pos as int, v_aspect, v_padding, v_radius, v_shadow, v_camera_size, v_camera_shape, v_camera_shadow, v_camera_mirror, v_camera_blur, v_background_type, v_background_preset, v_camera_position, v_shrink_16_9_cent, v_shrink_1_1_cent, v_shrink_9_16_cent, v_portrait_split) is None);
            }
            return None;
        },
    };
    proof {
        reveal(spec_parse_at_16);
        assert(spec_parse_at_16(text@, pos as int, v_aspect, v_padding, v_radius, v_shadow, v_camera_size, v_camera_shape, v_camera_shadow, v_camera_mirror, v_camera_blur, v_background_type, v_background_preset, v_camera_position, v_shrink_16_9_cent, v_shrink_1_1_cent, v_shrink_9_16_cent, v_portrait_split) == spec_parse_at_17(text@, p2 as int, v_aspect, v_padding, v_radius, v_shadow, v_camera_size, v_camera_shape, v_camera_shadow, v_camera_mirror, v_camera_blur, v_background_type, v_background_preset, v_camera_position, v_shrink_16_9_cent, v_shrink_1_1_cent, v_shrink_9_16_cent, v_portrait_split, v_portrait_bottom_ratio_cent));
    }
    let pos = p2;
    let p = match expect(text, pos, ",\"mode_16_9\":\"") {
        Some(p) => p,
        None => {
            proof {
                reveal(spec_parse_at_17);
                assert(spec_parse_at_17(text@, pos as int, v_aspect, v_padding, v_radius, v_shadow, v_camera_size, v_camera_shape, v_camera_shadow, v_camera_mirror, v_camera_blur, v_background_type, v_background_preset, v_camera_position, v_shrink_16_9_cent, v_shrink_1_1_cent, v_shrink_9_16_cent, v_portrait_split, v_portrait_bottom_ratio_cent) is None);
            }
            return None;
        },
    };
    let (v_mode_16_9, p2) = match parse_mode_word(text, p) {
        Some(x) => x,
        None => {
            proof {
                reveal(spec_parse_at_17);
                assert(spec_parse_at_17(text@, pos as int, v_aspect, v_padding, v_radius, v_shadow, v_camera_size, v_camera_shape, v_camera_shadow, v_camera_mirror, v_camera_blur, v_background_type, v_background_preset, v_camera_position, v_shrink_16_9_cent, v_shrink_1_1_cent, v_shrink_9_16_cent, v_portrait_split, v_portrait_bottom_ratio_cent) is None);
            }
            return None;
        },
    };
    proof {
        reveal(spec_parse_at_17);
        assert(spec_parse_at_17(text@, pos as int, v_aspect, v_padding, v_radius, v_shadow, v_camera_size, v_camera_shape, v_camera_shadow, v_camera_mirror, v_camera_blur, v_background_type, v_background_preset, v_camera_position, v_shrink_16_9_cent, v_shrink_1_1_cent, v_shrink_9_16_cent, v_portrait_split, v_portrait_bottom_ratio_cent) == spec_parse_at_18(text@, p2 as int, v_aspect, v_padding, v_radius, v_shadow, v_camera_size, v_camera_shape, v_camera_shadow, v_camera_mirror, v_camera_blur, v_background_type, v_background_preset, v_camera_position, v_shrink_16_9_cent, v_shrink_1_1_cent, v_shrink_9_16_cent, v_portrait_split, v_portrait_bottom_ratio_cent, v_mode_16_9));
    }
    let pos = p2;
    let p = match expect(text, pos, ",\"mode_1_1\":\"") {
        Some(p) => p,
        None => {
            proof {
                reveal(spec_parse_at_18);
                assert(spec_parse_at_18(text@, pos as int, v_aspect, v_padding, v_radius, v_shadow, v_camera_size, v_camera_shape, v_camera_shadow, v_camera_mirror, v_camera_blur, v_background_type, v_background_preset, v_camera_position, v_shrink_16_9_cent, v_shrink_1_1_cent, v_shrink_9_16_cent, v_portrait_split, v_portrait_bottom_ratio_cent, v_mode_16_9) is None);
            }
            return None;
        },
    };
    let (v_mode_1_1, p2) = match parse_mode_word(text, p) {
        Some(x) => x,
        None => {
            proof {
                reveal(spec_parse_at_18);
                assert(spec_parse_at_18(text@, pos as int, v_aspect, v_padding, v_radius, v_shadow, v_camera_size, v_camera_shape, v_camera_shadow, v_camera_mirror, v_camera_blur, v_background_type, v_background_preset, v_camera_position, v_shrink_16_9_cent, v_shrink_1_1_cent, v_shrink_9_16_cent, v_portrait_split, v_portrait_bottom_ratio_cent, v_mode_16_9) is None);
            }
            return None;
        },
    };
    proof {
        reveal(spec_parse_at_18);
        assert(spec_parse_at_18(text@, pos as int, v_aspect, v_padding, v_radius, v_shadow, v_camera_size, v_camera_shape, v_camera_shadow, v_camera_mirror, v_camera_blur, v_background_type, v_background_preset, v_camera_position, v_shrink_16_9_cent, v_shrink_1_1_cent, v_shrink_9_16_cent, v_portrait_split, v_portrait_bottom_ratio_cent, v_mode_16_9) == spec_parse_at_19(text@, p2 as int, v_aspect, v_padding, v_radius, v_shadow, v_camera_size, v_camera_shape, v_camera_shadow, v_camera_mirror, v_camera_blur, v_background_type, v_background_preset, v_camera_position, v_shrink_16_9_cent, v_shrink_1_1_cent, v_shrink_9_16_cent, v_portrait_split, v_portrait_bottom_ratio_cent, v_mode_16_9, v_mode_1_1));
    }
    let pos = p2;
    let p = match expect(text, pos, ",\"mode_9_16\":\"") {
        Some(p) => p,
        None => {
            proof {
                reveal(spec_parse_at_19);
                assert(spec_parse_at_19(text@, pos as int, v_aspect, v_padding, v_radius, v_shadow, v_camera_size, v_camera_shape, v_camera_shadow, v_camera_mirror, v_camera_blur, v_background_type, v_background_preset, v_camera_position, v_shrink_16_9_cent, v_shrink_1_1_cent, v_shrink_9_16_cent, v_portrait_split, v_portrait_bottom_ratio_cent, v_mode_16_9, v_mode_1_1) is None);
            }
            return None;
        },
    };
    let (v_mode_9_16, p2) = match parse_mode_word(text, p) {
        Some(x) => x,
        None => {
            proof {
                reveal(spec_parse_at_19);
                assert(spec_parse_at_19(text@, pos as int, v_aspect, v_padding, v_radius, v_shadow, v_camera_size, v_camera_shape, v_camera_shadow, v_camera_mirror, v_camera_blur, v_background_type, v_background_preset, v_camera_position, v_shrink_16_9_cent, v_shrink_1_1_cent, v_shrink_9_16_cent, v_portrait_split, v_portrait_bottom_ratio_cent, v_mode_16_9, v_mode_1_1) is None);
            }
            return None;
        },
    };
    proof {
        reveal(spec_parse_at_19);
        assert(spec_parse_at_19(text@, pos as int, v_aspect, v_padding, v_radius, v_shadow, v_camera_size, v_camera_shape, v_camera_shadow, v_camera_mirror, v_camera_blur, v_background_type, v_background_preset, v_camera_position, v_shrink_16_9_cent, v_shrink_1_1_cent, v_shrink_9_16_cent, v_portrait_split, v_portrait_bottom_ratio_cent, v_mode_16_9, v_mode_1_1) == spec_parse_at_20(text@, p2 as int, v_aspect, v_padding, v_radius, v_shadow, v_camera_size, v_camera_shape, v_camera_shadow, v_camera_mirror, v_camera_blur, v_background_type, v_background_preset, v_camera_position, v_shrink_16_9_cent, v_shrink_1_1_cent, v_shrink_9_16_cent, v_portrait_split, v_portrait_bottom_ratio_cent, v_mode_16_9, v_mode_1_1, v_mode_9_16));
    }
    let pos = p2;
    let p = match expect(text, pos, ",\"title_safe_16_9\":") {
        Some(p) => p,
        None => {
            proof {
                reveal(spec_parse_at_20);
                assert(spec_parse_at_20(text@, pos as int, v_aspect, v_padding, v_radius, v_shadow, v_camera_size, v_camera_shape, v_camera_shadow, v_camera_mirror, v_camera_blur, v_background_type, v_background_preset, v_camera_position, v_shrink_16_9_cent, v_shrink_1_1_cent, v_shrink_9_16_cent, v_portrait_split, v_portrait_bottom_ratio_cent, v_mode_16_9, v_mode_1_1, v_mode_9_16) is None);
            }
            return None;
        },
    };
    let (v_title_safe_16_9_cent, p2) = match read_cent(text, p) {
        Some(x) => x,
        None => {
            proof {
                reveal(spec_parse_at_20);
                assert(spec_parse_at_20(text@, pos as int, v_aspect, v_padding, v_radius, v_shadow, v_camera_size, v_camera_shape, v_camera_shadow, v_camera_mirror, v_camera_blur, v_background_type, v_background_preset, v_camera_position, v_shrink_16_9_cent, v_shrink_1_1_cent, v_shrink_9_16_cent, v_portrait_split, v_portrait_bottom_ratio_cent, v_mode_16_9, v_mode_1_1, v_mode_9_16) is None);
            }
            return None;
        },
    };
    proof {
        reveal(spec_parse_at_20);
        assert(spec_parse_at_20(text@, pos as int, v_aspect, v_padding, v_radius, v_shadow, v_camera_size, v_camera_shape, v_camera_shadow, v_camera_mirror, v_camera_blur, v_background_type, v_background_preset, v_camera_position, v_shrink_16_9_cent, v_shrink_1_1_cent, v_shrink_9_16_cent, v_portrait_split, v_portrait_bottom_ratio_cent, v_mode_16_9, v_mode_1_1, v_mode_9_16) == spec_parse_at_21(text@, p2 as int, v_aspect, v_padding, v_radius, v_shadow, v_camera_size, v_camera_shape, v_camera_shadow, v_camera_mirror, v_camera_blur, v_background_type, v_background_preset, v_camera_position, v_shrink_16_9_cent, v_shrink_1_1_cent, v_shrink_9_16_cent, v_portrait_split, v_portrait_bottom_ratio_cent, v_mode_16_9, v_mode_1_1, v_mode_9_16, v_title_safe_16_9_cent));
    }
    let pos = p2;
    let p = match expect(text, pos, ",\"subtitle_safe_16_9\":") {
        Some(p) => p,
        None => {
            proof {
                reveal(spec_parse_at_21);
                assert(spec_parse_at_21(text@, pos as int, v_aspect, v_padding, v_radius, v_shadow, v_camera_size, v_camera_shape, v_camera_shadow, v_camera_mirror, v_camera_blur, v_background_type, v_background_preset, v_camera_position, v_shrink_16_9_cent, v_shrink_1_1_cent, v_shrink_9_16_cent, v_portrait_split, v_portrait_bottom_ratio_cent, v_mode_16_9, v_mode_1_1, v_mode_9_16, v_title_safe_16_9_cent) is None);
            }
            return None;
        },
    };
    let (v_subtitle_safe_16_9_cent, p2) = match read_cent(text, p) {
        Some(x) => x,
        None => {
            proof {
                reveal(spec_parse_at_21);
                assert(spec_parse_at_21(text@, pos as int, v_aspect, v_padding, v_radius, v_shadow, v_camera_size, v_camera_shape, v_camera_shadow, v_camera_mirror, v_camera_blur, v_background_type, v_background_preset, v_camera_position, v_shrink_16_9_cent, v_shrink_1_1_cent, v_shrink_9_16_cent, v_portrait_split, v_portrait_bottom_ratio_cent, v_mode_16_9, v_mode_1_1, v_mode_9_16, v_title_safe_16_9_cent) is None);
            }
            return None;
        },
    };
    proof {
        reveal(spec_parse_at_21);
        assert(spec_parse_at_21(text@, pos as int, v_aspect, v_padding, v_radius, v_shadow, v_camera_size, v_camera_shape, v_camera_shadow, v_camera_mirror, v_camera_blur, v_background_type, v_background_preset, v_camera_position, v_shrink_16_9_cent, v_shrink_1_1_cent, v_shrink_9_16_cent, v_portrait_split, v_portrait_bottom_ratio_cent, v_mode_16_9, v_mode_1_1, v_mode_9_16, v_title_safe_16_9_cent) == spec_parse_at_22(text@, p2 as int, v_aspect, v_padding, v_radius, v_shadow, v_camera_size, v_camera_shape, v_camera_shadow, v_camera_mirror, v_camera_blur, v_background_type, v_background_preset, v_camera_position, v_shrink_16_9_cent, v_shrink_1_1_cent, v_shrink_9_16_cent, v_portrait_split, v_portrait_bottom_ratio_cent, v_mode_16_9, v_mode_1_1, v_mode_9_16, v_title_safe_16_9_cent, v_subtitle_safe_16_9_cent));
    }
    let pos = p2;
    let p = match expect(text, pos, ",\"title_safe_1_1\":") {
        Some(p) => p,
        None => {
            proof {
                reveal(spec_parse_at_22);
                assert(spec_parse_at_22(text@, pos as int, v_aspect, v_padding, v_radius, v_shadow, v_camera_size, v_camera_shape, v_camera_shadow, v_camera_mirror, v_camera_blur, v_background_type, v_background_preset, v_camera_position, v_shrink_16_9_cent, v_shrink_1_1_cent, v_shrink_9_16_cent, v_portrait_split, v_portrait_bottom_ratio_cent, v_mode_16_9, v_mode_1_1, v_mode_9_16, v_title_safe_16_9_cent, v_subtitle_safe_16_9_cent) is None);
            }
            return None;
        },
    };
    let (v_title_safe_1_1_cent, p2) = match read_cent(text, p) {
        Some(x) => x,
        None => {
            proof {
                reveal(spec_parse_at_22);
                assert(spec_parse_at_22(text@, pos as int, v_aspect, v_padding, v_radius, v_shadow, v_camera_size, v_camera_shape, v_camera_shadow, v_camera_mirror, v_camera_blur, v_background_type, v_background_preset, v_camera_position, v_shrink_16_9_cent, v_shrink_1_1_cent, v_shrink_9_16_cent, v_portrait_split, v_portrait_bottom_ratio_cent, v_mode_16_9, v_mode_1_1, v_mode_9_16, v_title_safe_16_9_cent, v_subtitle_safe_16_9_cent) is None);
            }
            return None;
        },
    };
    proof {
        reveal(spec_parse_at_22);
        assert(spec_parse_at_22(text@, pos as int, v_aspect, v_padding, v_radius, v_shadow, v_camera_size, v_camera_shape, v_camera_shadow, v_camera_mirror, v_camera_blur, v_background_type, v_background_preset, v_camera_position, v_shrink_16_9_cent, v_shrink_1_1_cent, v_shrink_9_16_cent, v_portrait_split, v_portrait_bottom_ratio_cent, v_mode_16_9, v_mode_1_1, v_mode_9_16, v_title_safe_16_9_cent, v_subtitle_safe_16_9_cent) == spec_parse_at_23(text@, p2 as int, v_aspect, v_padding, v_radius, v_shadow, v_camera_size, v_camera_shape, v_camera_shadow, v_camera_mirror, v_camera_blur, v_background_type, v_background_preset, v_camera_position, v_shrink_16_9_cent, v_shrink_1_1_cent, v_shrink_9_16_cent, v_portrait_split, v_portrait_bottom_ratio_cent, v_mode_16_9, v_mode_1_1, v_mode_9_16, v_title_safe_16_9_cent, v_subtitle_safe_16_9_cent, v_title_safe_1_1_cent));
    }
    let pos = p2;
    let p = match expect(text, pos, ",\"subtitle_safe_1_1\":") {
        Some(p) => p,
        None => {
            proof {
                reveal(spec_parse_at_23);
                assert(spec_parse_at_23(text@, pos as int, v_aspect, v_padding, v_radius, v_shadow, v_camera_size, v_camera_shape, v_camera_shadow, v_camera_mirror, v_camera_blur, v_background_type, v_background_preset, v_camera_position, v_shrink_16_9_cent, v_shrink_1_1_cent, v_shrink_9_16_cent, v_portrait_split, v_portrait_bottom_ratio_cent, v_mode_16_9, v_mode_1_1, v_mode_9_16, v_title_safe_16_9_cent, v_subtitle_safe_16_9_cent, v_title_safe_1_1_cent) is None);
            }
            return None;
        },
    };
    let (v_subtitle_safe_1_1_cent, p2) = match read_cent(text, p) {
        Some(x) => x,
        None => {
            proof {
                reveal(spec_parse_at_23);
                assert(spec_parse_at_23(text@, pos as int, v_aspect, v_padding, v_radius, v_shadow, v_camera_size, v_camera_shape, v_camera_shadow, v_camera_mirror, v_camera_blur, v_background_type, v_background_preset, v_camera_position, v_shrink_16_9_cent, v_shrink_1_1_cent, v_shrink_9_16_cent, v_portrait_split, v_portrait_bottom_ratio_cent, v_mode_16_9, v_mode_1_1, v_mode_9_16, v_title_safe_16_9_cent, v_subtitle_safe_16_9_cent, v_title_safe_1_1_cent) is None);
            }
            return None;
        },
    };
    proof {
        reveal(spec_parse_at_23);
        assert(spec_parse_at_23(text@, pos as int, v_aspect, v_padding, v_radius, v_shadow, v_camera_size, v_camera_shape, v_camera_shadow, v_camera_mirror, v_camera_blur, v_background_type, v_background_preset, v_camera_position, v_shrink_16_9_cent, v_shrink_1_1_cent, v_shrink_9_16_cent, v_portrait_split, v_portrait_bottom_ratio_cent, v_mode_16_9, v_mode_1_1, v_mode_9_16, v_title_safe_16_9_cent, v_subtitle_safe_16_9_cent, v_title_safe_1_1_cent) == spec_parse_at_24(text@, p2 as int, v_aspect, v_padding, v_radius, v_shadow, v_camera_size, v_camera_shape, v_camera_shadow, v_camera_mirror, v_camera_blur, v_background_type, v_background_preset, v_camera_position, v_shrink_16_9_cent, v_shrink_1_1_cent, v_shrink_9_16_cent, v_portrait_split, v_portrait_bottom_ratio_cent, v_mode_16_9, v_mode_1_1, v_mode_9_16, v_title_safe_16_9_cent, v_subtitle_safe_16_9_cent, v_title_safe_1_1_cent, v_subtitle_safe_1_1_cent));
    }
    let pos = p2;
    let p = match expect(text, pos, ",\"title_safe_9_16\":") {
        Some(p) => p,
        None => {
            proof {
                reveal(spec_parse_at_24);
                assert(spec_parse_at_24(text@, pos as int, v_aspect, v_padding, v_radius, v_shadow, v_camera_size, v_camera_shape, v_camera_shadow, v_camera_mirror, v_camera_blur, v_background_type, v_background_preset, v_camera_position, v_shrink_16_9_cent, v_shrink_1_1_cent, v_shrink_9_16_cent, v_portrait_split, v_portrait_bottom_ratio_cent, v_mode_16_9, v_mode_1_1, v_mode_9_16, v_title_safe_16_9_cent, v_subtitle_safe_16_9_cent, v_title_safe_1_1_cent, v_subtitle_safe_1_1_cent) is None);
            }
            return None;
        },
    };
    let (v_title_safe_9_16_cent, p2) = match read_cent(text, p) {
        Some(x) => x,
        None => {
            proof {
                reveal(spec_parse_at_24);
                assert(spec_parse_at_24(text@, pos as int, v_aspect, v_padding, v_radius, v_shadow, v_camera_size, v_camera_shape, v_camera_shadow, v_camera_mirror, v_camera_blur, v_background_type, v_background_preset, v_camera_position, v_shrink_16_9_cent, v_shrink_1_1_cent, v_shrink_9_16_cent, v_portrait_split, v_portrait_bottom_ratio_cent, v_mode_16_9, v_mode_1_1, v_mode_9_16, v_title_safe_16_9_cent, v_subtitle_safe_16_9_cent, v_title_safe_1_1_cent, v_subtitle_safe_1_1_cent) is None);
            }
            return None;
        },
    };
    proof {
        reveal(spec_parse_at_24);
        assert(spec_parse_at_24(text@, pos as int, v_aspect, v_padding, v_radius, v_shadow, v_camera_size, v_camera_shape, v_camera_shadow, v_camera_mirror, v_camera_blur, v_background_type, v_background_preset, v_camera_position, v_shrink_16_9_cent, v_shrink_1_1_cent, v_shrink_9_16_cent, v_portrait_split, v_portrait_bottom_ratio_cent, v_mode_16_9, v_mode_1_1, v_mode_9_16, v_title_safe_16_9_cent, v_subtitle_safe_16_9_cent, v_title_safe_1_1_cent, v_subtitle_safe_1_1_cent) == spec_parse_at_25(text@, p2 as int, v_aspect, v_padding, v_radius, v_shadow, v_camera_size, v_camera_shape, v_camera_shadow, v_camera_mirror, v_camera_blur, v_background_type, v_background_preset, v_camera_position, v_shrink_16_9_cent, v_shrink_1_1_cent, v_shrink_9_16_cent, v_portrait_split, v_portrait_bottom_ratio_cent, v_mode_16_9, v_mode_1_1, v_mode_9_16, v_title_safe_16_9_cent, v_subtitle_safe_16_9_cent, v_title_safe_1_1_cent, v_subtitle_safe_1_1_cent, v_title_safe_9_16_cent));
    }
    let pos = p2;
    let p = match expect(text, pos, ",\"subtitle_safe_9_16\":") {
        Some(p) => p,
        None => {
            proof {
                reveal(spec_parse_at_25);
                assert(spec_parse_at_25(text@, pos as int, v_aspect, v_padding, v_radius, v_shadow, v_camera_size, v_camera_shape, v_camera_shadow, v_camera_mirror, v_camera_blur, v_background_type, v_background_preset, v_camera_position, v_shrink_16_9_cent, v_shrink_1_1_cent, v_shrink_9_16_cent, v_portrait_split, v_portrait_bottom_ratio_cent, v_mode_16_9, v_mode_1_1, v_mode_9_16, v_title_safe_16_9_cent, v_subtitle_safe_16_9_cent, v_title_safe_1_1_cent, v_subtitle_safe_1_1_cent, v_title_safe_9_16_cent) is None);
            }
            return None;
        },
    };
    let (v_subtitle_safe_9_16_cent, p2) = match read_cent(text, p) {
        Some(x) => x,
        None => {
            proof {
                reveal(spec_parse_at_25);
                assert(spec_parse_at_25(text@, pos as int, v_aspect, v_padding, v_radius, v_shadow, v_camera_size, v_camera_shape, v_camera_shadow, v_camera_mirror, v_camera_blur, v_background_type, v_background_preset, v_camera_position, v_shrink_16_9_cent, v_shrink_1_1_cent, v_shrink_9_16_cent, v_portrait_split, v_portrait_bottom_ratio_cent, v_mode_16_9, v_mode_1_1, v_mode_9_16, v_title_safe_16_9_cent, v_subtitle_safe_16_9_cent, v_title_safe_1_1_cent, v_subtitle_safe_1_1_cent, v_title_safe_9_16_cent) is None);
            }
            return None;
        },
    };
    proof {
        reveal(spec_parse_at_25);
        assert(spec_parse_at_25(text@, pos as int, v_aspect, v_padding, v_radius, v_shadow, v_camera_size, v_camera_shape, v_camera_shadow, v_camera_mirror, v_camera_blur, v_background_type, v_background_preset, v_camera_position, v_shrink_16_9_cent, v_shrink_1_1_cent, v_shrink_9_16_cent, v_portrait_split, v_portrait_bottom_ratio_cent, v_mode_16_9, v_mode_1_1, v_mode_9_16, v_title_safe_16_9_cent, v_subtitle_safe_16_9_cent, v_title_safe_1_1_cent, v_subtitle_safe_1_1_cent, v_title_safe_9_16_cent) == spec_parse_at_26(text@, p2 as int, v_aspect, v_padding, v_radius, v_shadow, v_camera_size, v_camera_shape, v_camera_shadow, v_camera_mirror, v_camera_blur, v_background_type, v_background_preset, v_camera_position, v_shrink_16_9_cent, v_shrink_1_1_cent, v_shrink_9_16_cent, v_portrait_split, v_portrait_bottom_ratio_cent, v_mode_16_9, v_mode_1_1, v_mode_9_16, v_title_safe_16_9_cent, v_subtitle_safe_16_9_cent, v_title_safe_1_1_cent, v_subtitle_safe_1_1_cent, v_title_safe_9_16_cent, v_subtitle_safe_9_16_cent));
    }
    let pos = p2;
    let p = match expect(text, pos, "}") {
        Some(p) => p,
        None => {
            proof {
                reveal(spec_parse_at_26);
                assert(spec_parse_at_26(text@, pos as int, v_aspect, v_padding, v_radius, v_shadow, v_camera_size, v_camera_shape, v_camera_shadow, v_camera_mirror, v_camera_blur, v_background_type, v_background_preset, v_camera_position, v_shrink_16_9_cent, v_shrink_1_1_cent, v_shrink_9_16_cent, v_portrait_split, v_portrait_bottom_ratio_cent, v_mode_16_9, v_mode_1_1, v_mode_9_16, v_title_safe_16_9_cent, v_subtitle_safe_16_9_cent, v_title_safe_1_1_cent, v_subtitle_safe_1_1_cent, v_title_safe_9_16_cent, v_subtitle_safe_9_16_cent) is None);
            }
            return None;
        },
    };
    if p != n {
        proof {
            reveal(spec_parse_at_26);
            assert(spec_parse_at_26(text@, pos as int, v_aspect, v_padding, v_radius, v_shadow, v_camera_size, v_camera_shape, v_camera_shadow, v_camera_mirror, v_camera_blur, v_background_type, v_background_preset, v_camera_position, v_shrink_16_9_cent, v_shrink_1_1_cent, v_shrink_9_16_cent, v_portrait_split, v_portrait_bottom_ratio_cent, v_mode_16_9, v_mode_1_1, v_mode_9_16, v_title_safe_16_9_cent, v_subtitle_safe_16_9_cent, v_title_safe_1_1_cent, v_subtitle_safe_1_1_cent, v_title_safe_9_16_cent, v_subtitle_safe_9_16_cent) is None);
        }
        return None;
    }
    proof {
        reveal(spec_parse_at_26);
    }
    Some(EditState {
        aspect: v_aspect,
        padding: v_padding,
        radius: v_radius,
        shadow: v_shadow,
        camera_size: v_camera_size,
        camera_shape: v_camera_shape,
        camera_shadow: v_camera_shadow,
        camera_mirror: v_camera_mirror,
        camera_blur: v_camera_blur,
        background_type: v_background_type,
        background_preset: v_background_preset,
        camera_position: v_camera_position,
        shrink_16_9_cent: v_shrink_16_9_cent,
        shrink_1_1_cent: v_shrink_1_1_cent,
        shrink_9_16_cent: v_shrink_9_16_cent,
        portrait_split: v_portrait_split,
        portrait_bottom_ratio_cent: v_portrait_bottom_ratio_cent,
        mode_16_9: v_mode_16_9,
        mode_1_1: v_mode_1_1,
        mode_9_16: v_mode_9_16,
        title_safe_16_9_cent: v_title_safe_16_9_cent,
        subtitle_safe_16_9_cent: v_subtitle_safe_16_9_cent,
        title_safe_1_1_cent: v_title_safe_1_1_cent,
        subtitle_safe_1_1_cent: v_subtitle_safe_1_1_cent,
        title_safe_9_16_cent: v_title_safe_9_16_cent,
        subtitle_safe_9_16_cent: v_subtitle_safe_9_16_cent,
    })
}

/// Parses the document into field values; exactly the specified parse.
#[verifier::loop_isolation(false)]
#[verifier::rlimit(100)]
#[verifier::spinoff_prover]
fn raw_parse(text: &str) -> (r: Option<EditState>)
    ensures
        r == spec_parse_edit_state(text@),
{
    let mut pos: usize = 0;
    let p = match expect(text, pos, "{\"aspect\":\"") {
        Some(p) => p,
        None => {
            proof {
                reveal(spec_parse_at_0);
                assert(spec_parse_at_0(text@, pos as int) is None);
            }
            return None;
        },
    };
    let (v_aspect, p2) = match parse_aspect_word(text, p) {
        Some(x) => x,
        None => {
            proof {
                reveal(spec_parse_at_0);
                assert(spec_parse_at_0(text@, pos as int) is None);
            }
            return None;
        },
    };
    proof {
        reveal(spec_parse_at_0);
        assert(spec_parse_at_0(text@, pos as int) == spec_parse_at_1(text@, p2 as int, v_aspect));
    }
    let pos = p2;
    let p = match expect(text, pos, ",\"padding\":") {
        Some(p) => p,
        None => {
            proof {
                reveal(spec_parse_at_1);
                assert(spec_parse_at_1(text@, pos as int, v_aspect) is None);
            }
            return None;
        },
    };
    let (v_padding, p2) = match read_u32(text, p) {
        Some(x) => x,
        None => {
            proof {
                reveal(spec_parse_at_1);
                assert(spec_parse_at_1(text@, pos as int, v_aspect) is None);
            }
            return None;
        },
    };
    proof {
        reveal(spec_parse_at_1);
        assert(spec_parse_at_1(text@, pos as int, v_aspect) == spec_parse_at_2(text@, p2 as int, v_aspect, v_padding));
    }
    let pos = p2;
    let p = match expect(text, pos, ",\"radius\":") {
        Some(p) => p,
        None => {
            proof {
                reveal(spec_parse_at_2);
                assert(spec_parse_at_2(text@, pos as int, v_aspect, v_padding) is None);
            }
            return None;
        },
    };
    let (v_radius, p2) = match read_u32(text, p) {
        Some(x) => x,
        None => {
            proof {
                reveal(spec_parse_at_2);
                assert(spec_parse_at_2(text@, pos as int, v_aspect, v_padding) is None);
            }
            return None;
        },
    };
    proof {
        reveal(spec_parse_at_2);
        assert(spec_parse_at_2(text@, pos as int, v_aspect, v_padding) == spec_parse_at_3(text@, p2 as int, v_aspect, v_padding, v_radius));
    }
    let pos = p2;
    let p = match expect(text, pos, ",\"shadow\":") {
        Some(p) => p,
        None => {
            proof {
                reveal(spec_parse_at_3);
                assert(spec_parse_at_3(text@, pos as int, v_aspect, v_padding, v_radius) is None);
            }
            return None;
        },
    };
    let (v_shadow, p2) = match read_u32(text, p) {
        Some(x) => x,
        None => {
            proof {
                reveal(spec_parse_at_3);
                assert(spec_parse_at_3(text@, pos as int, v_aspect, v_padding, v_radius) is None);
            }
            return None;
        },
    };
    proof {
        reveal(spec_parse_at_3);
        assert(spec_parse_at_3(text@, pos as int, v_aspect, v_padding, v_radius) == spec_parse_at_4(text@, p2 as int, v_aspect, v_padding, v_radius, v_shadow));
    }
    let pos = p2;
    let p = match expect(text, pos, ",\"camera_size\":") {
        Some(p) => p,
        None => {
            proof {
                reveal(spec_parse_at_4);
                assert(spec_parse_at_4(text@, pos as int, v_aspect, v_padding, v_radius, v_shadow) is None);
            }
            return None;
        },
    };
    let (v_camera_size, p2) = match read_u32(text, p) {
        Some(x) => x,
        None => {
            proof {
                reveal(spec_parse_at_4);
                assert(spec_parse_at_4(text@, pos as int, v_aspect, v_padding, v_radius, v_shadow) is None);
            }
            return None;
        },
    };
    proof {
        reveal(spec_parse_at_4);
        assert(spec_parse_at_4(text@, pos as int, v_aspect, v_padding, v_radius, v_shadow) == spec_parse_at_5(text@, p2 as int, v_aspect, v_padding, v_radius, v_shadow, v_camera_size));
    }
    let pos = p2;
    let p = match expect(text, pos, ",\"camera_shape\":\"") {
        Some(p) => p,
        None => {
            proof {
                reveal(spec_parse_at_5);
                assert(spec_parse_at_5(text@, pos as int, v_aspect, v_padding, v_radius, v_shadow, v_camera_size) is None);
            }
            return None;
        },
    };
    let (v_camera_shape, p2) = match parse_shape_word(text, p) {
        Some(x) => x,
        None => {
            proof {
                reveal(spec_parse_at_5);
                assert(spec_parse_at_5(text@, pos as int, v_aspect, v_padding, v_radius, v_shadow, v_camera_size) is None);
            }
            return None;
        },
    };
    proof {
        reveal(spec_parse_at_5);
        assert(spec_parse_at_5(text@, pos as int, v_aspect, v_padding, v_radius, v_shadow, v_camera_size) == spec_parse_at_6(text@, p2 as int, v_aspect, v_padding, v_radius, v_shadow, v_camera_size, v_camera_shape));
    }
    let pos = p2;
    let p = match expect(text, pos, ",\"camera_shadow\":") {
        Some(p) => p,
        None => {
            proof {
                reveal(spec_parse_at_6);
                assert(spec_parse_at_6(text@, pos as int, v_aspect, v_padding, v_radius, v_shadow, v_camera_size, v_camera_shape) is None);
            }
            return None;
        },
    };
    let (v_camera_shadow, p2) = match read_u32(text, p) {
        Some(x) => x,
        None => {
            proof {
                reveal(spec_parse_at_6);
                assert(spec_parse_at_6(text@, pos as int, v_aspect, v_padding, v_radius, v_shadow, v_camera_size, v_camera_shape) is None);
            }
            return None;
        },
    };
    proof {
        reveal(spec_parse_at_6);
        assert(spec_parse_at_6(text@, pos as int, v_aspect, v_padding, v_radius, v_shadow, v_camera_size, v_camera_shape) == spec_parse_at_7(text@, p2 as int, v_aspect, v_padding, v_radius, v_shadow, v_camera_size, v_camera_shape, v_camera_shadow));
    }
    let pos = p2;
    let p = match expect(text, pos, ",\"camera_mirror\":") {
        Some(p) => p,
        None => {
            proof {
                reveal(spec_parse_at_7);
                assert(spec_parse_at_7(text@, pos as int, v_aspect, v_padding, v_radius, v_shadow, v_camera_size, v_camera_shape, v_camera_shadow) is None);
            }
            return None;
        },
    };
    let (v_camera_mirror, p2) = match read_bool(text, p) {
        Some(x) => x,
        None => {
            proof {
                reveal(spec_parse_at_7);
                assert(spec_parse_at_7(text@, pos as int, v_aspect, v_padding, v_radius, v_shadow, v_camera_size, v_camera_shape, v_camera_shadow) is None);
            }
            return None;
        },
    };
    proof {
        reveal(spec_parse_at_7);
        assert(spec_parse_at_7(text@, pos as int, v_aspect, v_padding, v_radius, v_shadow, v_camera_size, v_camera_shape, v_camera_shadow) == spec_parse_at_8(text@, p2 as int, v_aspect, v_padding, v_radius, v_shadow, v_camera_size, v_camera_shape, v_camera_shadow, v_camera_mirror));
    }
    let pos = p2;
    let p = match expect(text, pos, ",\"camera_blur\":") {
        Some(p) => p,
        None => {
            proof {
                reveal(spec_parse_at_8);
                assert(spec_parse_at_8(text@, pos as int, v_aspect, v_padding, v_radius, v_shadow, v_camera_size, v_camera_shape, v_camera_shadow, v_camera_mirror) is None);
            }
            return None;
        },
    };
    let (v_camera_blur, p2) = match read_bool(text, p) {
        Some(x) => x,
        None => {
            proof {
                reveal(spec_parse_at_8);
                assert(spec_parse_at_8(text@, pos as int, v_aspect, v_padding, v_radius, v_shadow, v_camera_size, v_camera_shape, v_camera_shadow, v_camera_mirror) is None);
            }
            return None;
        },
    };
    proof {
        reveal(spec_parse_at_8);
        assert(spec_parse_at_8(text@, pos as int, v_aspect, v_padding, v_radius, v_shadow, v_camera_size, v_camera_shape, v_camera_shadow, v_camera_mirror) == spec_parse_at_9(text@, p2 as int, v_aspect, v_padding, v_radius, v_shadow, v_camera_size, v_camera_shape, v_camera_shadow, v_camera_mirror, v_camera_blur));
    }
    let pos = p2;
    let p = match expect(text, pos, ",\"background_type\":\"") {
        Some(p) => p,
        None => {
            proof {
                reveal(spec_parse_at_9);
                assert(spec_parse_at_9(text@, pos as int, v_aspect, v_padding, v_radius, v_shadow, v_camera_size, v_camera_shape, v_camera_shadow, v_camera_mirror, v_camera_blur) is None);
            }
            return None;
        },
    };
    let (v_background_type, p2) = match parse_bg_word(text, p) {
        Some(x) => x,
        None => {
            proof {
                reveal(spec_parse_at_9);
                assert(spec_parse_at_9(text@, pos as int, v_aspect, v_padding, v_radius, v_shadow, v_camera_size, v_camera_shape, v_camera_shadow, v_camera_mirror, v_camera_blur) is None);
            }
            return None;
        },
    };
    proof {
        reveal(spec_parse_at_9);
        assert(spec_parse_at_9(text@, pos as int, v_aspect, v_padding, v_radius, v_shadow, v_camera_size, v_camera_shape, v_camera_shadow, v_camera_mirror, v_camera_blur) == spec_parse_at_10(text@, p2 as int, v_aspect, v_padding, v_radius, v_shadow, v_camera_size, v_camera_shape, v_camera_shadow, v_camera_mirror, v_camera_blur, v_background_type));
    }
    let pos = p2;
    let p = match expect(text, pos, ",\"background_preset\":") {
        Some(p) => p,
        None => {
            proof {
                reveal(spec_parse_at_10);
                assert(spec_parse_at_10(text@, pos as int, v_aspect, v_padding, v_radius, v_shadow, v_camera_size, v_camera_shape, v_camera_shadow, v_camera_mirror, v_camera_blur, v_background_type) is None);
            }
            return None;
        },
    };
    let (v_background_preset, p2) = match read_u32(text, p) {
        Some(x) => x,
        None => {
            proof {
                reveal(spec_parse_at_10);
                assert(spec_parse_at_10(text@, pos as int, v_aspect, v_padding, v_radius, v_shadow, v_camera_size, v_camera_shape, v_camera_shadow, v_camera_mirror, v_camera_blur, v_background_type) is None);
            }
            return None;
        },
    };
    proof {
        reveal(spec_parse_at_10);
        assert(spec_parse_at_10(text@, pos as int, v_aspect, v_padding, v_radius, v_shadow, v_camera_size, v_camera_shape, v_camera_shadow, v_camera_mirror, v_camera_blur, v_background_type) == spec_parse_at_11(text@, p2 as int, v_aspect, v_padding, v_radius, v_shadow, v_camera_size, v_camera_shape, v_camera_shadow, v_camera_mirror, v_camera_blur, v_background_type, v_background_preset));
    }
    let pos = p2;
    let p = match expect(text, pos, ",\"camera_position\":\"") {
        Some(p) => p,
        None => {
            proof {
                reveal(spec_parse_at_11);
                assert(spec_parse_at_11(text@, pos as int, v_aspect, v_padding, v_radius, v_shadow, v_camera_size, v_camera_shape, v_camera_shadow, v_camera_mirror, v_camera_blur, v_background_type, v_background_preset) is None);
            }
            return None;
        },
    };
    let (v_camera_position, p2) = match parse_pos_word(text, p) {
        Some(x) => x,
        None => {
            proof {
                reveal(spec_parse_at_11);
                assert(spec_parse_at_11(text@, pos as int, v_aspect, v_padding, v_radius, v_shadow, v_camera_size, v_camera_shape, v_camera_shadow, v_camera_mirror, v_camera_blur, v_background_type, v_background_preset) is None);
            }
            return None;
        },
    };
    proof {
        reveal(spec_parse_at_11);
        assert(spec_parse_at_11(text@, pos as int, v_aspect, v_padding, v_radius, v_shadow, v_camera_size, v_camera_shape, v_camera_shadow, v_camera_mirror, v_camera_blur, v_background_type, v_background_preset) == spec_parse_at_12(text@, p2 as int, v_aspect, v_padding, v_radius, v_shadow, v_camera_size, v_camera_shape, v_camera_shadow, v_camera_mirror, v_camera_blur, v_background_type, v_background_preset, v_camera_position));
    }
    let pos = p2;
    let p = match expect(text, pos, ",\"shrink_16_9\":") {
        Some(p) => p,
        None => {
            proof {
                reveal(spec_parse_at_12);
                assert(spec_parse_at_12(text@, pos as int, v_aspect, v_padding, v_radius, v_shadow, v_camera_size, v_camera_shape, v_camera_shadow, v_camera_mirror, v_camera_blur, v_background_type, v_background_preset, v_camera_position) is None);
            }
            return None;
        },
    };
    let (v_shrink_16_9_cent, p2) = match read_cent(text, p) {
        Some(x) => x,
        None => {
            proof {
                reveal(spec_parse_at_12);
                assert(spec_parse_at_12(text@, pos as int, v_aspect, v_padding, v_radius, v_shadow, v_camera_size, v_camera_shape, v_camera_shadow, v_camera_mirror, v_camera_blur, v_background_type, v_background_preset, v_camera_position) is None);
            }
            return None;
        },
    };
    proof {
        reveal(spec_parse_at_12);
        assert(spec_parse_at_12(text@, pos as int, v_aspect, v_padding, v_radius, v_shadow, v_camera_size, v_camera_shape, v_camera_shadow, v_camera_mirror, v_camera_blur, v_background_type, v_background_preset, v_camera_position) == spec_parse_at_13(text@, p2 as int, v_aspect, v_padding, v_radius, v_shadow, v_camera_size, v_camera_shape, v_camera_shadow, v_camera_mirror, v_camera_blur, v_background_type, v_background_preset, v_camera_position, v_shrink_16_9_cent));
    }
    let pos = p2;
    let r = raw_parse_tail(text, pos, v_aspect, v_padding, v_radius, v_shadow, v_camera_size, v_camera_shape, v_camera_shadow, v_camera_mirror, v_camera_blur, v_background_type, v_background_preset, v_camera_position, v_shrink_16_9_cent);
    r
}

/// Loads an edit state from its document text: exactly the output of
/// `edit_state_to_json` is accepted, the returned state saves back to
/// precisely the given text, and every saved state loads back to itself.
pub fn edit_state_from_json(text: &str) -> (r: Option<EditState>)
    ensures
        r matches Some(es) ==> text@ == spec_edit_state_json(es),
        forall|es: EditState|
            es.cents_wf() && text@ == spec_edit_state_json(es) ==> r == Some(es),
{
    let parsed = raw_parse(text);
    let es0 = match parsed {
        Some(es0) => es0,
        None => {
            proof {
                assert forall|es: EditState|
                    es.cents_wf() && text@ == spec_edit_state_json(es) implies parsed == Some(
                    es,
                ) by {
                    lemma_edit_state_round_trip(es);
                }
            }
            return None;
        },
    };
    let reprinted = edit_state_to_json(&es0);
    let eq = str_eq(reprinted.as_str(), text);
    let result = if eq {
        Some(es0)
    } else {
        None
    };
    proof {
        assert forall|es: EditState|
            es.cents_wf() && text@ == spec_edit_state_json(es) implies result == Some(es) by {
            lemma_edit_state_round_trip(es);
        }
    }
    result
}

} // verus!
