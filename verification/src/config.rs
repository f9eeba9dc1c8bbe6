//! The Oh My Posh theme configuration as the manager reads it: blocks of
//! segments with their styles and colours, plus the prompt settings around
//! them.  Reading and writing the JSON form happens outside the library.

use vstd::prelude::*;

use crate::text::owned;

verus! {

broadcast use vstd::string::group_string_axioms;

/// A theme configuration.
#[derive(Debug, Clone)]
pub struct OmpConfig {
    /// JSON schema URL.
    pub schema: Option<String>,
    /// Whether a space follows the prompt.
    pub final_space: Option<bool>,
    /// Terminal console title template.
    pub console_title_template: Option<String>,
    /// Prompt blocks — the core of every theme.
    pub blocks: Vec<Block>,
    /// Transient prompt settings.
    pub transient_prompt: Option<TransientPrompt>,
    /// Secondary prompt.
    pub secondary_prompt: Option<SecondaryPrompt>,
    /// Tooltip segments.
    pub tooltips: Vec<Segment>,
    /// Global palette — named colour aliases, as (name, colour) pairs.
    pub palette: Vec<(String, String)>,
    /// Palettes to cycle through.
    pub palettes: Vec<PaletteEntry>,
    /// Top-level keys the manager does not know, each with its value as
    /// JSON text, kept so that the file can be written back.
    pub extra: Vec<(String, String)>,
}

/// A block of segments.
#[derive(Debug, Clone)]
pub struct Block {
    /// `"prompt"` | `"rprompt"` | `"newline"`
    pub block_type: String,
    /// `"left"` | `"right"`
    pub alignment: String,
    /// Optional newline before this block.
    pub newline: Option<bool>,
    /// Segments within this block.
    pub segments: Vec<Segment>,
    /// Keys the manager does not know, with their values as JSON text.
    pub extra: Vec<(String, String)>,
}

/// One prompt segment.
#[derive(Debug, Clone)]
pub struct Segment {
    /// Segment type name (e.g. `"git"`, `"path"`, `"time"`).
    pub seg_type: String,
    /// Display style: `"powerline"` | `"plain"` | `"diamond"` | `"accordion"`
    pub style: String,
    /// Foreground colour.
    pub foreground: Option<String>,
    /// Background colour.
    pub background: Option<String>,
    pub foreground_templates: Option<Vec<String>>,
    pub background_templates: Option<Vec<String>>,
    /// Powerline symbol.
    pub powerline_symbol: Option<String>,
    /// Invert powerline arrow direction.
    pub invert_powerline: Option<bool>,
    pub leading_diamond: Option<String>,
    pub trailing_diamond: Option<String>,
    /// Template string for segment output.
    pub template: Option<String>,
    /// Segment-specific properties, with their values as JSON text.
    pub properties: Vec<(String, String)>,
    /// Keys the manager does not know, with their values as JSON text.
    pub extra: Vec<(String, String)>,
}

#[derive(Debug, Clone)]
pub struct TransientPrompt {
    pub foreground: Option<String>,
    pub background: Option<String>,
    pub template: Option<String>,
    /// Keys the manager does not know, with their values as JSON text.
    pub extra: Vec<(String, String)>,
}

#[derive(Debug, Clone)]
pub struct SecondaryPrompt {
    pub foreground: Option<String>,
    pub background: Option<String>,
    pub template: Option<String>,
    /// Keys the manager does not know, with their values as JSON text.
    pub extra: Vec<(String, String)>,
}

#[derive(Debug, Clone)]
pub struct PaletteEntry {
    pub name: Option<String>,
    pub palette: Vec<(String, String)>,
}

/// The alignment a block gets when its JSON names none.
pub fn default_alignment() -> (s: String)
    ensures
        s@ == "left"@,
{
    owned("left")
}

/// The style a segment gets when its JSON names none.
pub fn default_style() -> (s: String)
    ensures
        s@ == "powerline"@,
{
    owned("powerline")
}

/// Number of segments in the blocks, in total.
pub open spec fn segment_count(blocks: Seq<Block>) -> nat
    decreases blocks.len(),
{
    if blocks.len() == 0 {
        0
    } else {
        segment_count(blocks.drop_last()) + blocks.last().segments@.len()
    }
}

/// The type names of all segments, block by block, in order.
pub open spec fn segment_type_names(blocks: Seq<Block>) -> Seq<Seq<char>>
    decreases blocks.len(),
{
    if blocks.len() == 0 {
        Seq::empty()
    } else {
        segment_type_names(blocks.drop_last()) + blocks.last().segments@.map_values(
            |s: Segment| s.seg_type@,
        )
    }
}

impl OmpConfig {
    /// Count total segments across all blocks.
    pub fn total_segments(&self) -> (n: usize)
        requires
            segment_count(self.blocks@) <= usize::MAX,
        ensures
            n == segment_count(self.blocks@),
    {
        let mut n: usize = 0;
        let mut i: usize = 0;
        while i < self.blocks.len()
            invariant
                i <= self.blocks.len(),
                segment_count(self.blocks@) <= usize::MAX,
                n == segment_count(self.blocks@.take(i as int)),
            decreases self.blocks.len() - i,
        {
            proof {
                assert(self.blocks@.take(i + 1).drop_last() =~= self.blocks@.take(i as int));
                lemma_segment_count_prefix(self.blocks@, i + 1);
            }
            n = n + self.blocks[i].segments.len();
            i = i + 1;
        }
        assert(self.blocks@.take(i as int) =~= self.blocks@);
        n
    }

    /// A flat list of all segment type names.
    pub fn segment_types(&self) -> (v: Vec<String>)
        ensures
            v@.map_values(|s: String| s@) == segment_type_names(self.blocks@),
    {
        let mut v: Vec<String> = Vec::new();
        let mut i: usize = 0;
        while i < self.blocks.len()
            invariant
                i <= self.blocks.len(),
                v@.map_values(|s: String| s@) == segment_type_names(self.blocks@.take(i as int)),
            decreases self.blocks.len() - i,
        {
            let b = &self.blocks[i];
            let ghost before = v@.map_values(|s: String| s@);
            let mut j: usize = 0;
            while j < b.segments.len()
                invariant
                    j <= b.segments.len(),
                    v@.map_values(|s: String| s@) == before + b.segments@.take(j as int).map_values(
                        |s: Segment| s.seg_type@,
                    ),
                decreases b.segments.len() - j,
            {
                let name = b.segments[j].seg_type.clone();
                let ghost old_v = v@;
                v.push(name);
                assert(v@.map_values(|s: String| s@) =~= old_v.map_values(|s: String| s@).push(
                    name@,
                ));
                assert(b.segments@.take(j + 1).map_values(|s: Segment| s.seg_type@) =~= b.segments@.take(
                    j as int,
                ).map_values(|s: Segment| s.seg_type@).push(name@));
                assert(v@.map_values(|s: String| s@) =~= before + b.segments@.take(
                    j + 1,
                ).map_values(|s: Segment| s.seg_type@));
                j = j + 1;
            }
            assert(b.segments@.take(j as int) =~= b.segments@);
            assert(self.blocks@.take(i + 1).drop_last() =~= self.blocks@.take(i as int));
            i = i + 1;
        }
        assert(self.blocks@.take(i as int) =~= self.blocks@);
        v
    }
}

proof fn lemma_segment_count_prefix(blocks: Seq<Block>, k: int)
    requires
        0 <= k <= blocks.len(),
    ensures
        segment_count(blocks.take(k)) <= segment_count(blocks),
    decreases blocks.len() - k,
{
    if k < blocks.len() {
        lemma_segment_count_prefix(blocks, k + 1);
        assert(blocks.take(k + 1).drop_last() =~= blocks.take(k));
    } else {
        assert(blocks.take(k) =~= blocks);
    }
}

impl Block {
    /// Create a new empty prompt block.
    pub fn new_prompt(alignment: &str) -> (b: Block)
        ensures
            b.block_type@ == "prompt"@,
            b.alignment@ == alignment@,
            b.newline is None,
            b.segments@.len() == 0,
            b.extra@.len() == 0,
    {
        Block {
            block_type: owned("prompt"),
            alignment: owned(alignment),
            newline: None,
            segments: Vec::new(),
            extra: Vec::new(),
        }
    }
}

impl Segment {
    /// Create a minimal segment of the given type: powerline style, white on
    /// `#61AFEF`, with the powerline arrow symbol and nothing else set.
    pub fn new(seg_type: &str) -> (s: Segment)
        ensures
            s.seg_type@ == seg_type@,
            s.style@ == "powerline"@,
            s.foreground matches Some(f) && f@ == "#ffffff"@,
            s.background matches Some(b) && b@ == "#61AFEF"@,
            s.foreground_templates is None,
            s.background_templates is None,
            s.powerline_symbol matches Some(p) && p@ == "\u{e0b0}"@,
            s.invert_powerline is None,
            s.leading_diamond is None,
            s.trailing_diamond is None,
            s.template is None,
            s.properties@.len() == 0,
            s.extra@.len() == 0,
    {
        Segment {
            seg_type: owned(seg_type),
            style: owned("powerline"),
            foreground: Some(owned("#ffffff")),
            background: Some(owned("#61AFEF")),
            foreground_templates: None,
            background_templates: None,
            powerline_symbol: Some(owned("\u{e0b0}")),
            invert_powerline: None,
            leading_diamond: None,
            trailing_diamond: None,
            template: None,
            properties: Vec::new(),
            extra: Vec::new(),
        }
    }
}

/// Where the user's own configuration is kept, below the user's
/// configuration directory (home/`.config` when there is none).
pub open spec fn user_config_parts_spec() -> Seq<Seq<char>> {
    seq!["omp-manager"@, "my-theme.omp.json"@]
}

pub fn user_config_parts() -> (v: Vec<&'static str>)
    ensures
        v@.map_values(|s: &'static str| s@) == user_config_parts_spec(),
{
    let v = vec!["omp-manager", "my-theme.omp.json"];
    assert(v@.map_values(|s: &'static str| s@) =~= user_config_parts_spec());
    v
}

} // verus!
