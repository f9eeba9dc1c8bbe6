use omp_manager::config::{
    default_alignment, default_style, user_config_parts, Block, OmpConfig, PaletteEntry,
    SecondaryPrompt, Segment, TransientPrompt,
};
use serde_json::Value;

type JsonObject = serde_json::Map<String, Value>;

fn opt_str(v: &JsonObject, key: &str) -> Option<String> {
    v.get(key).and_then(|x| x.as_str()).map(|s| s.to_string())
}

fn opt_strs(v: &JsonObject, key: &str) -> Option<Vec<String>> {
    v.get(key).and_then(|x| x.as_array()).map(|a| {
        a.iter().filter_map(|s| s.as_str().map(|s| s.to_string())).collect()
    })
}

fn pairs(v: Option<&Value>) -> Vec<(String, String)> {
    match v.and_then(|x| x.as_object()) {
        Some(m) => m
            .iter()
            .filter_map(|(k, v)| v.as_str().map(|s| (k.clone(), s.to_string())))
            .collect(),
        None => Vec::new(),
    }
}

fn json_pairs(v: Option<&Value>) -> Vec<(String, String)> {
    match v.and_then(|x| x.as_object()) {
        Some(m) => m.iter().map(|(k, v)| (k.clone(), v.to_string())).collect(),
        None => Vec::new(),
    }
}

fn segment_from(v: &Value) -> Segment {
    let m = v.as_object().unwrap();
    Segment {
        seg_type: opt_str(m, "type").unwrap(),
        style: opt_str(m, "style").unwrap_or_else(default_style),
        foreground: opt_str(m, "foreground"),
        background: opt_str(m, "background"),
        foreground_templates: opt_strs(m, "foreground_templates"),
        background_templates: opt_strs(m, "background_templates"),
        powerline_symbol: opt_str(m, "powerline_symbol"),
        invert_powerline: m.get("invert_powerline").and_then(|x| x.as_bool()),
        leading_diamond: opt_str(m, "leading_diamond"),
        trailing_diamond: opt_str(m, "trailing_diamond"),
        template: opt_str(m, "template"),
        properties: json_pairs(m.get("properties")),
        extra: Vec::new(),
    }
}

fn block_from(v: &Value) -> Block {
    let m = v.as_object().unwrap();
    Block {
        block_type: opt_str(m, "type").unwrap(),
        alignment: opt_str(m, "alignment").unwrap_or_else(default_alignment),
        newline: m.get("newline").and_then(|x| x.as_bool()),
        segments: m
            .get("segments")
            .and_then(|x| x.as_array())
            .map(|a| a.iter().map(segment_from).collect())
            .unwrap_or_default(),
        extra: Vec::new(),
    }
}

fn config_from(v: &Value) -> OmpConfig {
    let m = v.as_object().unwrap();
    OmpConfig {
        schema: opt_str(m, "$schema"),
        final_space: m.get("final_space").and_then(|x| x.as_bool()),
        console_title_template: opt_str(m, "console_title_template"),
        blocks: m
            .get("blocks")
            .and_then(|x| x.as_array())
            .map(|a| a.iter().map(block_from).collect())
            .unwrap_or_default(),
        transient_prompt: m.get("transient_prompt").and_then(|x| x.as_object()).map(|t| TransientPrompt {
            foreground: opt_str(t, "foreground"),
            background: opt_str(t, "background"),
            template: opt_str(t, "template"),
            extra: Vec::new(),
        }),
        secondary_prompt: m.get("secondary_prompt").and_then(|x| x.as_object()).map(|t| SecondaryPrompt {
            foreground: opt_str(t, "foreground"),
            background: opt_str(t, "background"),
            template: opt_str(t, "template"),
            extra: Vec::new(),
        }),
        tooltips: m
            .get("tooltips")
            .and_then(|x| x.as_array())
            .map(|a| a.iter().map(segment_from).collect())
            .unwrap_or_default(),
        palette: pairs(m.get("palette")),
        palettes: m
            .get("palettes")
            .and_then(|x| x.as_array())
            .map(|a| {
                a.iter()
                    .map(|p| PaletteEntry {
                        name: p.get("name").and_then(|x| x.as_str()).map(|s| s.to_string()),
                        palette: pairs(p.get("palette")),
                    })
                    .collect()
            })
            .unwrap_or_default(),
        extra: Vec::new(),
    }
}

fn put(m: &mut JsonObject, key: &str, v: &Option<String>) {
    if let Some(s) = v {
        m.insert(key.to_string(), Value::String(s.clone()));
    }
}

fn segment_to(s: &Segment) -> Value {
    let mut m = JsonObject::new();
    m.insert("type".to_string(), Value::String(s.seg_type.clone()));
    m.insert("style".to_string(), Value::String(s.style.clone()));
    put(&mut m, "foreground", &s.foreground);
    put(&mut m, "background", &s.background);
    put(&mut m, "template", &s.template);
    Value::Object(m)
}

fn config_to(c: &OmpConfig) -> Value {
    let mut m = JsonObject::new();
    put(&mut m, "$schema", &c.schema);
    if let Some(b) = c.final_space {
        m.insert("final_space".to_string(), Value::Bool(b));
    }
    let blocks = c
        .blocks
        .iter()
        .map(|b| {
            let mut bm = JsonObject::new();
            bm.insert("type".to_string(), Value::String(b.block_type.clone()));
            bm.insert("alignment".to_string(), Value::String(b.alignment.clone()));
            bm.insert("segments".to_string(), Value::Array(b.segments.iter().map(segment_to).collect()));
            Value::Object(bm)
        })
        .collect();
    m.insert("blocks".to_string(), Value::Array(blocks));
    Value::Object(m)
}

#[test]
fn test_minimal_config_roundtrip() {
    let json = r##"{
            "$schema": "https://raw.githubusercontent.com/JanDeDobbeleer/oh-my-posh/main/themes/schema.json",
            "blocks": [
                {
                    "type": "prompt",
                    "alignment": "left",
                    "segments": [
                        {
                            "type": "path",
                            "style": "powerline",
                            "foreground": "#ffffff",
                            "background": "#61AFEF"
                        }
                    ]
                }
            ],
            "final_space": true
        }"##;
    let cfg = config_from(&serde_json::from_str::<Value>(json).unwrap());
    assert_eq!(cfg.blocks.len(), 1);
    assert_eq!(cfg.blocks[0].segments.len(), 1);
    assert_eq!(cfg.blocks[0].segments[0].seg_type, "path");

    // Round-trip
    let out = serde_json::to_string_pretty(&config_to(&cfg)).unwrap();
    let cfg2 = config_from(&serde_json::from_str::<Value>(&out).unwrap());
    assert_eq!(cfg2.total_segments(), 1);
}

#[test]
fn test_segment_new() {
    let seg = Segment::new("git");
    assert_eq!(seg.seg_type, "git");
    assert_eq!(seg.style, "powerline");
}

#[test]
fn defaults_for_missing_fields() {
    assert_eq!(default_alignment(), "left");
    assert_eq!(default_style(), "powerline");
}

#[test]
fn new_prompt_block_is_empty_prompt() {
    let b = Block::new_prompt("right");
    assert_eq!(b.block_type, "prompt");
    assert_eq!(b.alignment, "right");
    assert!(b.segments.is_empty());
    assert_eq!(b.newline, None);
}

#[test]
fn new_segment_default_colours() {
    let s = Segment::new("time");
    assert_eq!(s.foreground, Some("#ffffff".to_string()));
    assert_eq!(s.background, Some("#61AFEF".to_string()));
    assert_eq!(s.powerline_symbol, Some("\u{e0b0}".to_string()));
    assert_eq!(s.template, None);
    assert_eq!(s.invert_powerline, None);
    assert!(s.properties.is_empty() && s.extra.is_empty());
}

fn two_block_config() -> OmpConfig {
    let mut b1 = Block::new_prompt("left");
    b1.segments.push(Segment::new("path"));
    b1.segments.push(Segment::new("git"));
    let mut b2 = Block::new_prompt("right");
    b2.segments.push(Segment::new("time"));
    OmpConfig {
        schema: None,
        final_space: None,
        console_title_template: None,
        blocks: vec![b1, b2],
        transient_prompt: None,
        secondary_prompt: None,
        tooltips: Vec::new(),
        palette: Vec::new(),
        palettes: Vec::new(),
        extra: Vec::new(),
    }
}

#[test]
fn total_segments_counts_all_blocks() {
    assert_eq!(two_block_config().total_segments(), 3);
}

#[test]
fn segment_types_in_order() {
    assert_eq!(two_block_config().segment_types(), vec!["path", "git", "time"]);
}

#[test]
fn user_config_file_location() {
    assert_eq!(user_config_parts(), vec!["omp-manager", "my-theme.omp.json"]);
}
