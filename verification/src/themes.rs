//! The theme catalog: built-in themes, discovery of themes on disk, ordering,
//! filtering by category, searching, and the download of theme files.

use vstd::prelude::*;

use crate::config::OmpConfig;
use crate::platform::{CommandOutcome, Platform};
use crate::shell::{opt_str_view, opt_string_view};
use crate::text::{
    chars_of, concat2, concat3, lowercase, owned, seq_contains, seq_ends_with, str_eq,
    str_ends_with, string_of, to_lowercase, trim_spec, trim_str, vec_contains,
};

verus! {

broadcast use vstd::string::group_string_axioms;

#[derive(Debug, Clone, Copy, PartialEq, Eq, Structural)]
pub enum ThemeCategory {
    All, Popular, Minimal, Powerline, Colorful, Dark, Light,
}

pub open spec fn theme_categories_spec() -> Seq<ThemeCategory> {
    seq![ThemeCategory::All, ThemeCategory::Popular, ThemeCategory::Minimal, ThemeCategory::Powerline, ThemeCategory::Colorful, ThemeCategory::Dark, ThemeCategory::Light]
}

pub open spec fn theme_category_label_spec(c: ThemeCategory) -> Seq<char> {
    match c {
        ThemeCategory::All => "All Themes"@,
        ThemeCategory::Popular => "⭐ Popular"@,
        ThemeCategory::Minimal => "◽ Minimal"@,
        ThemeCategory::Powerline => "▶ Powerline"@,
        ThemeCategory::Colorful => "🎨 Colorful"@,
        ThemeCategory::Dark => "🌙 Dark"@,
        ThemeCategory::Light => "☀ Light"@,
    }
}

impl ThemeCategory {
    /// Every category, in sidebar order.
    pub fn all() -> (v: Vec<ThemeCategory>)
        ensures
            v@ == theme_categories_spec(),
    {
        vec![ThemeCategory::All, ThemeCategory::Popular, ThemeCategory::Minimal, ThemeCategory::Powerline, ThemeCategory::Colorful, ThemeCategory::Dark, ThemeCategory::Light]
    }

    pub fn label(&self) -> (s: &'static str)
        ensures
            s@ == theme_category_label_spec(*self),
    {
        match self {
            ThemeCategory::All => "All Themes",
            ThemeCategory::Popular => "⭐ Popular",
            ThemeCategory::Minimal => "◽ Minimal",
            ThemeCategory::Powerline => "▶ Powerline",
            ThemeCategory::Colorful => "🎨 Colorful",
            ThemeCategory::Dark => "🌙 Dark",
            ThemeCategory::Light => "☀ Light",
        }
    }
}

/// The built-in catalog: (name, description, categories) of every theme
/// shipped with Oh My Posh.
pub open spec fn builtin_themes_spec() -> Seq<(Seq<char>, Seq<char>, Seq<ThemeCategory>)> {
    seq![
        (("agnoster"@, "Classic powerline-style prompt"@, seq![ThemeCategory::Powerline, ThemeCategory::Popular])),
        (("agnosterplus"@, "Extended agnoster with extra segments"@, seq![ThemeCategory::Powerline, ThemeCategory::Popular])),
        (("aliens"@, "Alien-themed creative prompt"@, seq![ThemeCategory::Colorful])),
        (("amro"@, "Clean two-line prompt"@, seq![ThemeCategory::Minimal])),
        (("atomic"@, "Atomic design-inspired prompt"@, seq![ThemeCategory::Colorful])),
        (("atomicBit"@, "Atomic variant with bit-icons"@, seq![ThemeCategory::Colorful])),
        (("avit"@, "Minimal avit-style prompt"@, seq![ThemeCategory::Minimal])),
        (("blueish"@, "Cool blue tones prompt"@, seq![ThemeCategory::Dark, ThemeCategory::Colorful])),
        (("blue-owl"@, "Elegant blue owl theme"@, seq![ThemeCategory::Dark])),
        (("bubbles"@, "Rounded bubble segments"@, seq![ThemeCategory::Colorful, ThemeCategory::Popular])),
        (("bubblesextra"@, "Extended bubbles with more info"@, seq![ThemeCategory::Colorful])),
        (("bubblesline"@, "Bubbles with line decorations"@, seq![ThemeCategory::Colorful])),
        (("capr4n"@, "Capr4n creative theme"@, seq![ThemeCategory::Colorful])),
        (("catppuccin"@, "Catppuccin color palette"@, seq![ThemeCategory::Popular, ThemeCategory::Colorful])),
        (("catppuccin_frappe"@, "Catppuccin Frappé variant"@, seq![ThemeCategory::Colorful])),
        (("catppuccin_latte"@, "Catppuccin Latte – light variant"@, seq![ThemeCategory::Light, ThemeCategory::Colorful])),
        (("catppuccin_macchiato"@, "Catppuccin Macchiato variant"@, seq![ThemeCategory::Colorful])),
        (("catppuccin_mocha"@, "Catppuccin Mocha – rich dark"@, seq![ThemeCategory::Dark, ThemeCategory::Popular])),
        (("cert"@, "Certificate-style prompt"@, seq![ThemeCategory::Minimal])),
        (("clean-detailed"@, "Clean with detailed system info"@, seq![ThemeCategory::Minimal])),
        (("cloud-context"@, "Shows cloud provider context"@, seq![ThemeCategory::Powerline])),
        (("cobalt2"@, "Cobalt2-inspired vibrant theme"@, seq![ThemeCategory::Colorful, ThemeCategory::Popular])),
        (("craver"@, "Craver creative prompt"@, seq![ThemeCategory::Colorful])),
        (("darkblood"@, "Dark blood-red theme"@, seq![ThemeCategory::Dark])),
        (("default"@, "Oh My Posh default theme"@, seq![ThemeCategory::Minimal, ThemeCategory::Popular])),
        (("di4am0nd"@, "Diamond-style prompt segments"@, seq![ThemeCategory::Colorful])),
        (("dracula"@, "Dracula color scheme"@, seq![ThemeCategory::Dark, ThemeCategory::Popular])),
        (("easy-term"@, "Easy-to-read terminal prompt"@, seq![ThemeCategory::Minimal])),
        (("emodipt"@, "Emoji-powered prompt"@, seq![ThemeCategory::Colorful])),
        (("emodipt-extend"@, "Extended emoji prompt"@, seq![ThemeCategory::Colorful])),
        (("fish"@, "Fish shell inspired prompt"@, seq![ThemeCategory::Minimal])),
        (("free-ukraine"@, "Blue and gold Ukraine theme"@, seq![ThemeCategory::Colorful])),
        (("froczh"@, "Froczh creative theme"@, seq![ThemeCategory::Colorful])),
        (("glowsticks"@, "Neon glow-stick prompt"@, seq![ThemeCategory::Colorful])),
        (("gmay"@, "Gmay clean prompt"@, seq![ThemeCategory::Minimal])),
        (("gruvbox"@, "Gruvbox retro palette"@, seq![ThemeCategory::Dark, ThemeCategory::Popular])),
        (("half-life"@, "Half-Life game inspired"@, seq![ThemeCategory::Dark])),
        (("honukai"@, "Honukai colorful theme"@, seq![ThemeCategory::Colorful])),
        (("hotstick.minimal"@, "Hot stick minimal variant"@, seq![ThemeCategory::Minimal])),
        (("hul10"@, "Hul10 developer prompt"@, seq![ThemeCategory::Powerline])),
        (("huvix"@, "Huvix modern prompt"@, seq![ThemeCategory::Colorful])),
        (("if_tea"@, "If-tea creative theme"@, seq![ThemeCategory::Colorful])),
        (("illusi0n"@, "Illusion gradient prompt"@, seq![ThemeCategory::Colorful])),
        (("iterm2"@, "iTerm2-style prompt"@, seq![ThemeCategory::Minimal])),
        (("jandedobbeleer"@, "Jan De Dobbeleer's personal theme"@, seq![ThemeCategory::Powerline, ThemeCategory::Popular])),
        (("jblab_2021"@, "JBLab 2021 prompt"@, seq![ThemeCategory::Powerline])),
        (("jonnychipz"@, "Jonnychipz creative prompt"@, seq![ThemeCategory::Colorful])),
        (("json"@, "JSON-format display prompt"@, seq![ThemeCategory::Minimal])),
        (("jtracey93"@, "jtracey93 developer theme"@, seq![ThemeCategory::Powerline])),
        (("jv_sitecoredude"@, "Sitecore developer theme"@, seq![ThemeCategory::Powerline])),
        (("kali"@, "Kali Linux inspired prompt"@, seq![ThemeCategory::Dark, ThemeCategory::Popular])),
        (("kushal"@, "Kushal clean theme"@, seq![ThemeCategory::Minimal])),
        (("lambdageneration"@, "Lambda-symbol prompt"@, seq![ThemeCategory::Minimal])),
        (("larserikfinholt"@, "Lars Erik Finholt theme"@, seq![ThemeCategory::Colorful])),
        (("M365Princess"@, "Microsoft 365 princess theme"@, seq![ThemeCategory::Colorful, ThemeCategory::Light])),
        (("marcduiker"@, "Marc Duiker's Azure theme"@, seq![ThemeCategory::Powerline])),
        (("markbull"@, "Markbull developer prompt"@, seq![ThemeCategory::Powerline])),
        (("material"@, "Material design colors"@, seq![ThemeCategory::Colorful, ThemeCategory::Popular])),
        (("microverse-power"@, "Micro-verse power prompt"@, seq![ThemeCategory::Powerline])),
        (("mojada"@, "Mojada dark theme"@, seq![ThemeCategory::Dark])),
        (("montys"@, "Monty's creative prompt"@, seq![ThemeCategory::Colorful])),
        (("mt"@, "MT minimal two-line"@, seq![ThemeCategory::Minimal])),
        (("negligible"@, "Ultra-minimal prompt"@, seq![ThemeCategory::Minimal])),
        (("neko"@, "Neko cat-themed prompt"@, seq![ThemeCategory::Colorful])),
        (("night-owl"@, "Night Owl VS Code theme colors"@, seq![ThemeCategory::Dark, ThemeCategory::Popular])),
        (("nordtron"@, "Nord color scheme"@, seq![ThemeCategory::Dark, ThemeCategory::Popular])),
        (("nu4a"@, "Nu4a modern prompt"@, seq![ThemeCategory::Minimal])),
        (("onehalf.minimal"@, "One Half minimal variant"@, seq![ThemeCategory::Minimal])),
        (("paradox"@, "Paradox powerline prompt"@, seq![ThemeCategory::Powerline, ThemeCategory::Popular])),
        (("patriksvensson"@, "Patrik Svensson's theme"@, seq![ThemeCategory::Powerline])),
        (("peru"@, "Peru warm tones"@, seq![ThemeCategory::Colorful])),
        (("pixelrobots"@, "Pixel robots fun theme"@, seq![ThemeCategory::Colorful])),
        (("plague"@, "Plague dark theme"@, seq![ThemeCategory::Dark])),
        (("powerlevel10k_classic"@, "P10K classic layout"@, seq![ThemeCategory::Powerline, ThemeCategory::Popular])),
        (("powerlevel10k_lean"@, "P10K lean minimal"@, seq![ThemeCategory::Powerline, ThemeCategory::Minimal])),
        (("powerlevel10k_modern"@, "P10K modern with icons"@, seq![ThemeCategory::Powerline, ThemeCategory::Popular])),
        (("powerlevel10k_rainbow"@, "P10K rainbow colorful"@, seq![ThemeCategory::Powerline, ThemeCategory::Colorful, ThemeCategory::Popular])),
        (("powerline"@, "Classic powerline prompt"@, seq![ThemeCategory::Powerline, ThemeCategory::Popular])),
        (("probua.minimal"@, "Probua minimal prompt"@, seq![ThemeCategory::Minimal])),
        (("pure"@, "Pure ultra-minimal prompt"@, seq![ThemeCategory::Minimal, ThemeCategory::Popular])),
        (("quick-term"@, "Quick terminal fast prompt"@, seq![ThemeCategory::Minimal])),
        (("remk"@, "Remk creative theme"@, seq![ThemeCategory::Colorful])),
        (("robbyrussel"@, "Robby Russell (oh-my-zsh default)"@, seq![ThemeCategory::Minimal, ThemeCategory::Popular])),
        (("rudolfs-dark"@, "Rudolf's dark theme"@, seq![ThemeCategory::Dark])),
        (("rudolfs-light"@, "Rudolf's light theme"@, seq![ThemeCategory::Light])),
        (("slim"@, "Slim single-line prompt"@, seq![ThemeCategory::Minimal])),
        (("slimfat"@, "Slimfat two-line compact"@, seq![ThemeCategory::Minimal])),
        (("smoothie"@, "Smoothie gradient prompt"@, seq![ThemeCategory::Colorful])),
        (("sonicboom_dark"@, "Sonic Boom dark variant"@, seq![ThemeCategory::Dark, ThemeCategory::Colorful])),
        (("sonicboom_light"@, "Sonic Boom light variant"@, seq![ThemeCategory::Light, ThemeCategory::Colorful])),
        (("space"@, "Space-themed prompt"@, seq![ThemeCategory::Dark])),
        (("spaceship"@, "Spaceship two-line prompt"@, seq![ThemeCategory::Popular, ThemeCategory::Powerline])),
        (("star"@, "Star minimal prompt"@, seq![ThemeCategory::Minimal])),
        (("stelbent-compact.minimal"@, "Stelbent compact minimal"@, seq![ThemeCategory::Minimal])),
        (("stelbent.minimal"@, "Stelbent minimal prompt"@, seq![ThemeCategory::Minimal])),
        (("takuya"@, "Takuya Japanese-style prompt"@, seq![ThemeCategory::Colorful])),
        (("thecyberden"@, "The Cyberden hacker prompt"@, seq![ThemeCategory::Dark])),
        (("the-unnamed"@, "The Unnamed mysterious prompt"@, seq![ThemeCategory::Dark])),
        (("tiwahu"@, "Tiwahu developer prompt"@, seq![ThemeCategory::Powerline])),
        (("tokyonight_storm"@, "Tokyo Night Storm colors"@, seq![ThemeCategory::Dark, ThemeCategory::Popular])),
        (("uew"@, "UEW university prompt"@, seq![ThemeCategory::Colorful])),
        (("unicorn"@, "Unicorn rainbow prompt"@, seq![ThemeCategory::Colorful])),
        (("velvet"@, "Velvet rich dark prompt"@, seq![ThemeCategory::Dark])),
        (("wholespace"@, "Whole-space wide prompt"@, seq![ThemeCategory::Powerline])),
        (("wopian"@, "Wopian modern prompt"@, seq![ThemeCategory::Colorful])),
        (("xtoys"@, "X-toys creative prompt"@, seq![ThemeCategory::Colorful])),
        (("ys"@, "YS two-line prompt"@, seq![ThemeCategory::Minimal])),
        (("zash"@, "Zash clean prompt"@, seq![ThemeCategory::Minimal])),
    ]
}

/// The built-in theme catalog.
pub fn builtin_themes() -> (v: Vec<ThemeDef>)
    ensures
        v@.map_values(|d: ThemeDef| def_view(d)) == builtin_themes_spec(),
{
    let v = vec![
        ThemeDef { name: "agnoster", description: "Classic powerline-style prompt", categories: vec![ThemeCategory::Powerline, ThemeCategory::Popular] },
        ThemeDef { name: "agnosterplus", description: "Extended agnoster with extra segments", categories: vec![ThemeCategory::Powerline, ThemeCategory::Popular] },
        ThemeDef { name: "aliens", description: "Alien-themed creative prompt", categories: vec![ThemeCategory::Colorful] },
        ThemeDef { name: "amro", description: "Clean two-line prompt", categories: vec![ThemeCategory::Minimal] },
        ThemeDef { name: "atomic", description: "Atomic design-inspired prompt", categories: vec![ThemeCategory::Colorful] },
        ThemeDef { name: "atomicBit", description: "Atomic variant with bit-icons", categories: vec![ThemeCategory::Colorful] },
        ThemeDef { name: "avit", description: "Minimal avit-style prompt", categories: vec![ThemeCategory::Minimal] },
        ThemeDef { name: "blueish", description: "Cool blue tones prompt", categories: vec![ThemeCategory::Dark, ThemeCategory::Colorful] },
        ThemeDef { name: "blue-owl", description: "Elegant blue owl theme", categories: vec![ThemeCategory::Dark] },
        ThemeDef { name: "bubbles", description: "Rounded bubble segments", categories: vec![ThemeCategory::Colorful, ThemeCategory::Popular] },
        ThemeDef { name: "bubblesextra", description: "Extended bubbles with more info", categories: vec![ThemeCategory::Colorful] },
        ThemeDef { name: "bubblesline", description: "Bubbles with line decorations", categories: vec![ThemeCategory::Colorful] },
        ThemeDef { name: "capr4n", description: "Capr4n creative theme", categories: vec![ThemeCategory::Colorful] },
        ThemeDef { name: "catppuccin", description: "Catppuccin color palette", categories: vec![ThemeCategory::Popular, ThemeCategory::Colorful] },
        ThemeDef { name: "catppuccin_frappe", description: "Catppuccin Frappé variant", categories: vec![ThemeCategory::Colorful] },
        ThemeDef { name: "catppuccin_latte", description: "Catppuccin Latte – light variant", categories: vec![ThemeCategory::Light, ThemeCategory::Colorful] },
        ThemeDef { name: "catppuccin_macchiato", description: "Catppuccin Macchiato variant", categories: vec![ThemeCategory::Colorful] },
        ThemeDef { name: "catppuccin_mocha", description: "Catppuccin Mocha – rich dark", categories: vec![ThemeCategory::Dark, ThemeCategory::Popular] },
        ThemeDef { name: "cert", description: "Certificate-style prompt", categories: vec![ThemeCategory::Minimal] },
        ThemeDef { name: "clean-detailed", description: "Clean with detailed system info", categories: vec![ThemeCategory::Minimal] },
        ThemeDef { name: "cloud-context", description: "Shows cloud provider context", categories: vec![ThemeCategory::Powerline] },
        ThemeDef { name: "cobalt2", description: "Cobalt2-inspired vibrant theme", categories: vec![ThemeCategory::Colorful, ThemeCategory::Popular] },
        ThemeDef { name: "craver", description: "Craver creative prompt", categories: vec![ThemeCategory::Colorful] },
        ThemeDef { name: "darkblood", description: "Dark blood-red theme", categories: vec![ThemeCategory::Dark] },
        ThemeDef { name: "default", description: "Oh My Posh default theme", categories: vec![ThemeCategory::Minimal, ThemeCategory::Popular] },
        ThemeDef { name: "di4am0nd", description: "Diamond-style prompt segments", categories: vec![ThemeCategory::Colorful] },
        ThemeDef { name: "dracula", description: "Dracula color scheme", categories: vec![ThemeCategory::Dark, ThemeCategory::Popular] },
        ThemeDef { name: "easy-term", description: "Easy-to-read terminal prompt", categories: vec![ThemeCategory::Minimal] },
        ThemeDef { name: "emodipt", description: "Emoji-powered prompt", categories: vec![ThemeCategory::Colorful] },
        ThemeDef { name: "emodipt-extend", description: "Extended emoji prompt", categories: vec![ThemeCategory::Colorful] },
        ThemeDef { name: "fish", description: "Fish shell inspired prompt", categories: vec![ThemeCategory::Minimal] },
        ThemeDef { name: "free-ukraine", description: "Blue and gold Ukraine theme", categories: vec![ThemeCategory::Colorful] },
        ThemeDef { name: "froczh", description: "Froczh creative theme", categories: vec![ThemeCategory::Colorful] },
        ThemeDef { name: "glowsticks", description: "Neon glow-stick prompt", categories: vec![ThemeCategory::Colorful] },
        ThemeDef { name: "gmay", description: "Gmay clean prompt", categories: vec![ThemeCategory::Minimal] },
        ThemeDef { name: "gruvbox", description: "Gruvbox retro palette", categories: vec![ThemeCategory::Dark, ThemeCategory::Popular] },
        ThemeDef { name: "half-life", description: "Half-Life game inspired", categories: vec![ThemeCategory::Dark] },
        ThemeDef { name: "honukai", description: "Honukai colorful theme", categories: vec![ThemeCategory::Colorful] },
        ThemeDef { name: "hotstick.minimal", description: "Hot stick minimal variant", categories: vec![ThemeCategory::Minimal] },
        ThemeDef { name: "hul10", description: "Hul10 developer prompt", categories: vec![ThemeCategory::Powerline] },
        ThemeDef { name: "huvix", description: "Huvix modern prompt", categories: vec![ThemeCategory::Colorful] },
        ThemeDef { name: "if_tea", description: "If-tea creative theme", categories: vec![ThemeCategory::Colorful] },
        ThemeDef { name: "illusi0n", description: "Illusion gradient prompt", categories: vec![ThemeCategory::Colorful] },
        ThemeDef { name: "iterm2", description: "iTerm2-style prompt", categories: vec![ThemeCategory::Minimal] },
        ThemeDef { name: "jandedobbeleer", description: "Jan De Dobbeleer's personal theme", categories: vec![ThemeCategory::Powerline, ThemeCategory::Popular] },
        ThemeDef { name: "jblab_2021", description: "JBLab 2021 prompt", categories: vec![ThemeCategory::Powerline] },
        ThemeDef { name: "jonnychipz", description: "Jonnychipz creative prompt", categories: vec![ThemeCategory::Colorful] },
        ThemeDef { name: "json", description: "JSON-format display prompt", categories: vec![ThemeCategory::Minimal] },
        ThemeDef { name: "jtracey93", description: "jtracey93 developer theme", categories: vec![ThemeCategory::Powerline] },
        ThemeDef { name: "jv_sitecoredude", description: "Sitecore developer theme", categories: vec![ThemeCategory::Powerline] },
        ThemeDef { name: "kali", description: "Kali Linux inspired prompt", categories: vec![ThemeCategory::Dark, ThemeCategory::Popular] },
        ThemeDef { name: "kushal", description: "Kushal clean theme", categories: vec![ThemeCategory::Minimal] },
        ThemeDef { name: "lambdageneration", description: "Lambda-symbol prompt", categories: vec![ThemeCategory::Minimal] },
        ThemeDef { name: "larserikfinholt", description: "Lars Erik Finholt theme", categories: vec![ThemeCategory::Colorful] },
        ThemeDef { name: "M365Princess", description: "Microsoft 365 princess theme", categories: vec![ThemeCategory::Colorful, ThemeCategory::Light] },
        ThemeDef { name: "marcduiker", description: "Marc Duiker's Azure theme", categories: vec![ThemeCategory::Powerline] },
        ThemeDef { name: "markbull", description: "Markbull developer prompt", categories: vec![ThemeCategory::Powerline] },
        ThemeDef { name: "material", description: "Material design colors", categories: vec![ThemeCategory::Colorful, ThemeCategory::Popular] },
        ThemeDef { name: "microverse-power", description: "Micro-verse power prompt", categories: vec![ThemeCategory::Powerline] },
        ThemeDef { name: "mojada", description: "Mojada dark theme", categories: vec![ThemeCategory::Dark] },
        ThemeDef { name: "montys", description: "Monty's creative prompt", categories: vec![ThemeCategory::Colorful] },
        ThemeDef { name: "mt", description: "MT minimal two-line", categories: vec![ThemeCategory::Minimal] },
        ThemeDef { name: "negligible", description: "Ultra-minimal prompt", categories: vec![ThemeCategory::Minimal] },
        ThemeDef { name: "neko", description: "Neko cat-themed prompt", categories: vec![ThemeCategory::Colorful] },
        ThemeDef { name: "night-owl", description: "Night Owl VS Code theme colors", categories: vec![ThemeCategory::Dark, ThemeCategory::Popular] },
        ThemeDef { name: "nordtron", description: "Nord color scheme", categories: vec![ThemeCategory::Dark, ThemeCategory::Popular] },
        ThemeDef { name: "nu4a", description: "Nu4a modern prompt", categories: vec![ThemeCategory::Minimal] },
        ThemeDef { name: "onehalf.minimal", description: "One Half minimal variant", categories: vec![ThemeCategory::Minimal] },
        ThemeDef { name: "paradox", description: "Paradox powerline prompt", categories: vec![ThemeCategory::Powerline, ThemeCategory::Popular] },
        ThemeDef { name: "patriksvensson", description: "Patrik Svensson's theme", categories: vec![ThemeCategory::Powerline] },
        ThemeDef { name: "peru", description: "Peru warm tones", categories: vec![ThemeCategory::Colorful] },
        ThemeDef { name: "pixelrobots", description: "Pixel robots fun theme", categories: vec![ThemeCategory::Colorful] },
        ThemeDef { name: "plague", description: "Plague dark theme", categories: vec![ThemeCategory::Dark] },
        ThemeDef { name: "powerlevel10k_classic", description: "P10K classic layout", categories: vec![ThemeCategory::Powerline, ThemeCategory::Popular] },
        ThemeDef { name: "powerlevel10k_lean", description: "P10K lean minimal", categories: vec![ThemeCategory::Powerline, ThemeCategory::Minimal] },
        ThemeDef { name: "powerlevel10k_modern", description: "P10K modern with icons", categories: vec![ThemeCategory::Powerline, ThemeCategory::Popular] },
        ThemeDef { name: "powerlevel10k_rainbow", description: "P10K rainbow colorful", categories: vec![ThemeCategory::Powerline, ThemeCategory::Colorful, ThemeCategory::Popular] },
        ThemeDef { name: "powerline", description: "Classic powerline prompt", categories: vec![ThemeCategory::Powerline, ThemeCategory::Popular] },
        ThemeDef { name: "probua.minimal", description: "Probua minimal prompt", categories: vec![ThemeCategory::Minimal] },
        ThemeDef { name: "pure", description: "Pure ultra-minimal prompt", categories: vec![ThemeCategory::Minimal, ThemeCategory::Popular] },
        ThemeDef { name: "quick-term", description: "Quick terminal fast prompt", categories: vec![ThemeCategory::Minimal] },
        ThemeDef { name: "remk", description: "Remk creative theme", categories: vec![ThemeCategory::Colorful] },
        ThemeDef { name: "robbyrussel", description: "Robby Russell (oh-my-zsh default)", categories: vec![ThemeCategory::Minimal, ThemeCategory::Popular] },
        ThemeDef { name: "rudolfs-dark", description: "Rudolf's dark theme", categories: vec![ThemeCategory::Dark] },
        ThemeDef { name: "rudolfs-light", description: "Rudolf's light theme", categories: vec![ThemeCategory::Light] },
        ThemeDef { name: "slim", description: "Slim single-line prompt", categories: vec![ThemeCategory::Minimal] },
        ThemeDef { name: "slimfat", description: "Slimfat two-line compact", categories: vec![ThemeCategory::Minimal] },
        ThemeDef { name: "smoothie", description: "Smoothie gradient prompt", categories: vec![ThemeCategory::Colorful] },
        ThemeDef { name: "sonicboom_dark", description: "Sonic Boom dark variant", categories: vec![ThemeCategory::Dark, ThemeCategory::Colorful] },
        ThemeDef { name: "sonicboom_light", description: "Sonic Boom light variant", categories: vec![ThemeCategory::Light, ThemeCategory::Colorful] },
        ThemeDef { name: "space", description: "Space-themed prompt", categories: vec![ThemeCategory::Dark] },
        ThemeDef { name: "spaceship", description: "Spaceship two-line prompt", categories: vec![ThemeCategory::Popular, ThemeCategory::Powerline] },
        ThemeDef { name: "star", description: "Star minimal prompt", categories: vec![ThemeCategory::Minimal] },
        ThemeDef { name: "stelbent-compact.minimal", description: "Stelbent compact minimal", categories: vec![ThemeCategory::Minimal] },
        ThemeDef { name: "stelbent.minimal", description: "Stelbent minimal prompt", categories: vec![ThemeCategory::Minimal] },
        ThemeDef { name: "takuya", description: "Takuya Japanese-style prompt", categories: vec![ThemeCategory::Colorful] },
        ThemeDef { name: "thecyberden", description: "The Cyberden hacker prompt", categories: vec![ThemeCategory::Dark] },
        ThemeDef { name: "the-unnamed", description: "The Unnamed mysterious prompt", categories: vec![ThemeCategory::Dark] },
        ThemeDef { name: "tiwahu", description: "Tiwahu developer prompt", categories: vec![ThemeCategory::Powerline] },
        ThemeDef { name: "tokyonight_storm", description: "Tokyo Night Storm colors", categories: vec![ThemeCategory::Dark, ThemeCategory::Popular] },
        ThemeDef { name: "uew", description: "UEW university prompt", categories: vec![ThemeCategory::Colorful] },
        ThemeDef { name: "unicorn", description: "Unicorn rainbow prompt", categories: vec![ThemeCategory::Colorful] },
        ThemeDef { name: "velvet", description: "Velvet rich dark prompt", categories: vec![ThemeCategory::Dark] },
        ThemeDef { name: "wholespace", description: "Whole-space wide prompt", categories: vec![ThemeCategory::Powerline] },
        ThemeDef { name: "wopian", description: "Wopian modern prompt", categories: vec![ThemeCategory::Colorful] },
        ThemeDef { name: "xtoys", description: "X-toys creative prompt", categories: vec![ThemeCategory::Colorful] },
        ThemeDef { name: "ys", description: "YS two-line prompt", categories: vec![ThemeCategory::Minimal] },
        ThemeDef { name: "zash", description: "Zash clean prompt", categories: vec![ThemeCategory::Minimal] },
    ];
    assert(v@.map_values(|d: ThemeDef| def_view(d)) =~~= builtin_themes_spec());
    v
}

/// One entry of the built-in catalog.
#[derive(Debug, Clone)]
pub struct ThemeDef {
    pub name: &'static str,
    pub description: &'static str,
    pub categories: Vec<ThemeCategory>,
}

pub open spec fn def_view(d: ThemeDef) -> (Seq<char>, Seq<char>, Seq<ThemeCategory>) {
    (d.name@, d.description@, d.categories@)
}

// ── Theme entry ──────────────────────────────────────────────────────────────

/// A theme as listed by the manager.
#[derive(Debug, Clone)]
pub struct ThemeEntry {
    /// Theme file name without the `.omp.json` suffix.
    pub name: String,
    /// Brief description.
    pub description: String,
    /// Categories this theme belongs to.
    pub categories: Vec<ThemeCategory>,
    /// Path to the theme file, when it is on disk.
    pub path: Option<String>,
    /// Parsed configuration (loaded lazily on selection).
    pub config: Option<OmpConfig>,
}

/// What a theme entry says, without its loaded configuration.
pub struct ThemeView {
    pub name: Seq<char>,
    pub description: Seq<char>,
    pub categories: Seq<ThemeCategory>,
    pub path: Option<Seq<char>>,
}

pub open spec fn theme_view(e: ThemeEntry) -> ThemeView {
    ThemeView {
        name: e.name@,
        description: e.description@,
        categories: e.categories@,
        path: opt_string_view(e.path),
    }
}

pub open spec fn theme_views(s: Seq<ThemeEntry>) -> Seq<ThemeView> {
    s.map_values(|e: ThemeEntry| theme_view(e))
}

// ── Names from file names ────────────────────────────────────────────────────

/// `s` with every trailing copy of `p` removed (`str::trim_end_matches`).
pub open spec fn strip_suffix_all(s: Seq<char>, p: Seq<char>) -> Seq<char>
    decreases s.len(),
{
    if p.len() > 0 && seq_ends_with(s, p) {
        strip_suffix_all(s.subrange(0, s.len() - p.len()), p)
    } else {
        s
    }
}

/// Index of the last `'.'` in `s`, if any.
pub open spec fn last_dot(s: Seq<char>) -> Option<int>
    decreases s.len(),
{
    if s.len() == 0 {
        None
    } else if s.last() == '.' {
        Some(s.len() - 1)
    } else {
        last_dot(s.drop_last())
    }
}

/// The theme name a file name stands for: `paradox.omp.json` gives
/// `paradox`; `.omp.yaml` and `.omp.toml` files count too; any other file
/// is no theme. Every trailing repetition of the suffix goes, so
/// `a.omp.json.omp.json` gives `a`.
pub open spec fn theme_name_from_file_spec(fname: Seq<char>) -> Option<Seq<char>> {
    if seq_ends_with(fname, ".omp.json"@) {
        Some(strip_suffix_all(fname, ".omp.json"@))
    } else if seq_ends_with(fname, ".omp.yaml"@) || seq_ends_with(fname, ".omp.toml"@) {
        match last_dot(fname) {
            Some(i) => Some(strip_suffix_all(fname.take(i), ".omp"@)),
            None => None,
        }
    } else {
        None
    }
}

/// A file named `<x>.omp.json`, where `x` does not itself end in
/// `.omp.json`, stands for the theme `x`, and that theme's file name
/// (`theme_file_name`) is the file name it came from.
pub proof fn law_theme_name_round_trip(fname: Seq<char>)
    requires
        seq_ends_with(fname, ".omp.json"@),
        !seq_ends_with(fname.subrange(0, fname.len() - ".omp.json"@.len()), ".omp.json"@),
    ensures
        theme_name_from_file_spec(fname) matches Some(n) && n + ".omp.json"@ == fname,
{
    reveal_strlit(".omp.json");
    let n = fname.subrange(0, fname.len() - ".omp.json"@.len());
    assert(strip_suffix_all(n, ".omp.json"@) == n);
    assert(strip_suffix_all(fname, ".omp.json"@) == n);
    assert(n + ".omp.json"@ =~= fname);
}

/// `s` with every trailing repetition of `p` removed.
pub fn strip_suffix_all_exec(s: &Vec<char>, p: &Vec<char>) -> (r: Vec<char>)
    ensures
        r@ == strip_suffix_all(s@, p@),
{
    let mut cur = s.clone();
    assert(cur@ =~= s@);
    if p.len() == 0 {
        return cur;
    }
    loop
        invariant
            p@.len() > 0,
            strip_suffix_all(cur@, p@) == strip_suffix_all(s@, p@),
        decreases cur.len(),
    {
        if p.len() > cur.len() {
            return cur;
        }
        let start = cur.len() - p.len();
        if !crate::text::occurs_at_exec(&cur, p, start) {
            return cur;
        }
        let ghost before = cur@;
        let mut next: Vec<char> = Vec::new();
        let mut k: usize = 0;
        while k < start
            invariant
                k <= start,
                start <= cur.len(),
                next@ == cur@.take(k as int),
            decreases start - k,
        {
            next.push(cur[k]);
            k = k + 1;
            assert(next@ =~= cur@.take(k as int));
        }
        assert(next@ =~= before.subrange(0, before.len() - p@.len()));
        cur = next;
    }
}

proof fn lemma_last_dot(s: Seq<char>)
    ensures
        last_dot(s) matches Some(i) ==> 0 <= i < s.len() && s[i] == '.',
    decreases s.len(),
{
    if s.len() > 0 && s.last() != '.' {
        lemma_last_dot(s.drop_last());
    }
}

fn last_dot_exec(s: &Vec<char>) -> (r: Option<usize>)
    ensures
        match r {
            Some(i) => last_dot(s@) == Some(i as int),
            None => last_dot(s@) is None,
        },
{
    let mut j: usize = s.len();
    assert(s@.take(j as int) =~= s@);
    while j > 0
        invariant
            j <= s.len(),
            last_dot(s@) == last_dot(s@.take(j as int)),
        decreases j,
    {
        assert(s@.take(j as int).drop_last() =~= s@.take(j - 1));
        if s[j - 1] == '.' {
            return Some(j - 1);
        }
        j = j - 1;
    }
    None
}

/// Extract the theme name from a file name like `paradox.omp.json`.
pub fn theme_name_from_file(fname: &str) -> (r: Option<String>)
    ensures
        opt_string_view(r) == theme_name_from_file_spec(fname@),
{
    let f = chars_of(fname);
    if str_ends_with(fname, ".omp.json") {
        let p = chars_of(".omp.json");
        let n = strip_suffix_all_exec(&f, &p);
        Some(string_of(&n))
    } else if str_ends_with(fname, ".omp.yaml") || str_ends_with(fname, ".omp.toml") {
        match last_dot_exec(&f) {
            Some(i) => {
                proof {
                    lemma_last_dot(f@);
                }
                let mut base: Vec<char> = Vec::new();
                let mut k: usize = 0;
                while k < i
                    invariant
                        k <= i,
                        i < f.len(),
                        base@ == f@.take(k as int),
                    decreases i - k,
                {
                    base.push(f[k]);
                    k = k + 1;
                    assert(base@ =~= f@.take(k as int));
                }
                let p = chars_of(".omp");
                let n = strip_suffix_all_exec(&base, &p);
                Some(string_of(&n))
            },
            None => None,
        }
    } else {
        None
    }
}

/// The theme a path names, from the path's file name (see
/// [`theme_name_from_file`]).
pub fn theme_name_from_path(path: &str) -> (r: Option<String>)
    ensures
        opt_string_view(r) == (match crate::paths::path_file_name(path@) {
            Some(f) => theme_name_from_file_spec(f),
            None => None,
        }),
{
    match crate::paths::file_name(path) {
        Some(f) => theme_name_from_file(f.as_str()),
        None => None,
    }
}

/// Index of the first built-in theme called `name`.
pub open spec fn builtin_index(defs: Seq<(Seq<char>, Seq<char>, Seq<ThemeCategory>)>, name: Seq<char>) -> Option<int>
    decreases defs.len(),
{
    if defs.len() == 0 {
        None
    } else if defs[0].0 == name {
        Some(0)
    } else {
        match builtin_index(defs.drop_first(), name) {
            Some(i) => Some(i + 1),
            None => None,
        }
    }
}

proof fn lemma_builtin_index_bounds(defs: Seq<(Seq<char>, Seq<char>, Seq<ThemeCategory>)>, name: Seq<char>)
    ensures
        builtin_index(defs, name) matches Some(i) ==> 0 <= i < defs.len() && defs[i].0 == name,
        builtin_index(defs, name) is None ==> forall|k: int| 0 <= k < defs.len() ==> #[trigger] defs[k].0 != name,
    decreases defs.len(),
{
    if defs.len() > 0 {
        lemma_builtin_index_bounds(defs.drop_first(), name);
        if defs[0].0 != name {
            assert forall|k: int| 0 < k < defs.len() implies defs[k] == defs.drop_first()[k - 1] by {}
        }
    }
}

/// Find a built-in theme by name: its index in the catalog.
pub fn lookup_builtin(defs: &Vec<ThemeDef>, name: &str) -> (r: Option<usize>)
    ensures
        match r {
            Some(i) => builtin_index(defs@.map_values(|d: ThemeDef| def_view(d)), name@) == Some(
                i as int,
            ),
            None => builtin_index(defs@.map_values(|d: ThemeDef| def_view(d)), name@) is None,
        },
{
    let ghost views = defs@.map_values(|d: ThemeDef| def_view(d));
    let mut i: usize = 0;
    while i < defs.len()
        invariant
            i <= defs.len(),
            views == defs@.map_values(|d: ThemeDef| def_view(d)),
            forall|k: int| 0 <= k < i ==> #[trigger] views[k].0 != name@,
        decreases defs.len() - i,
    {
        if str_eq(defs[i].name, name) {
            proof {
                lemma_builtin_first(views, name@, i as int);
            }
            return Some(i);
        }
        i = i + 1;
    }
    proof {
        lemma_builtin_none(views, name@);
    }
    None
}

proof fn lemma_builtin_first(defs: Seq<(Seq<char>, Seq<char>, Seq<ThemeCategory>)>, name: Seq<char>, i: int)
    requires
        0 <= i < defs.len(),
        defs[i].0 == name,
        forall|k: int| 0 <= k < i ==> #[trigger] defs[k].0 != name,
    ensures
        builtin_index(defs, name) == Some(i),
    decreases i,
{
    if i > 0 {
        assert forall|k: int| 0 <= k < i - 1 implies #[trigger] defs.drop_first()[k].0 != name by {
            assert(defs.drop_first()[k] == defs[k + 1]);
        }
        lemma_builtin_first(defs.drop_first(), name, i - 1);
    }
}

proof fn lemma_builtin_none(defs: Seq<(Seq<char>, Seq<char>, Seq<ThemeCategory>)>, name: Seq<char>)
    requires
        forall|k: int| 0 <= k < defs.len() ==> #[trigger] defs[k].0 != name,
    ensures
        builtin_index(defs, name) is None,
    decreases defs.len(),
{
    if defs.len() > 0 {
        assert forall|k: int| 0 <= k < defs.len() - 1 implies #[trigger] defs.drop_first()[k].0 != name by {
            assert(defs.drop_first()[k] == defs[k + 1]);
        }
        lemma_builtin_none(defs.drop_first(), name);
    }
}

// ── Ordering ─────────────────────────────────────────────────────────────────

/// `a <= b` in `String`'s order (lexicographic by character).
pub open spec fn lex_le(a: Seq<char>, b: Seq<char>) -> bool
    decreases a.len(),
{
    if a.len() == 0 {
        true
    } else if b.len() == 0 {
        false
    } else if a[0] != b[0] {
        (a[0] as u32) < (b[0] as u32)
    } else {
        lex_le(a.drop_first(), b.drop_first())
    }
}

fn lex_le_exec(a: &Vec<char>, b: &Vec<char>) -> (r: bool)
    ensures
        r == lex_le(a@, b@),
{
    let mut i: usize = 0;
    assert(a@.skip(0) =~= a@);
    assert(b@.skip(0) =~= b@);
    while i < a.len() && i < b.len() && a[i] == b[i]
        invariant
            i <= a.len(),
            i <= b.len(),
            lex_le(a@, b@) == lex_le(a@.skip(i as int), b@.skip(i as int)),
        decreases a.len() - i,
    {
        assert(a@.skip(i as int).drop_first() =~= a@.skip(i + 1));
        assert(b@.skip(i as int).drop_first() =~= b@.skip(i + 1));
        i = i + 1;
    }
    if i == a.len() {
        true
    } else if i == b.len() {
        false
    } else {
        assert(a@.skip(i as int)[0] == a@[i as int]);
        assert(b@.skip(i as int)[0] == b@[i as int]);
        (a[i] as u32) < (b[i] as u32)
    }
}

/// The sort key of a theme: its name in lower case.
pub open spec fn theme_key(t: ThemeView) -> Seq<char> {
    lowercase(t.name)
}

/// Insert `x` into `s` after every element whose key is not greater.
pub open spec fn insert_by_key(s: Seq<ThemeView>, x: ThemeView) -> Seq<ThemeView>
    decreases s.len(),
{
    if s.len() == 0 {
        seq![x]
    } else if !lex_le(theme_key(s.last()), theme_key(x)) {
        insert_by_key(s.drop_last(), x).push(s.last())
    } else {
        s.push(x)
    }
}

/// The stable sort of `s` by lower-case name (as `sort_by` with a key
/// comparison does it): insertion of each element in turn.
pub open spec fn sort_by_key(s: Seq<ThemeView>) -> Seq<ThemeView>
    decreases s.len(),
{
    if s.len() == 0 {
        s
    } else {
        insert_by_key(sort_by_key(s.drop_last()), s.last())
    }
}

proof fn lemma_insert_split(s: Seq<ThemeView>, x: ThemeView, p: int)
    requires
        0 < p <= s.len(),
        !lex_le(theme_key(s[p - 1]), theme_key(x)),
    ensures
        insert_by_key(s.take(p), x) == insert_by_key(s.take(p - 1), x).push(s[p - 1]),
{
    assert(s.take(p).drop_last() =~= s.take(p - 1));
}


/// The themes are in ascending order of lower-case name.
pub open spec fn sorted_by_key(s: Seq<ThemeView>) -> bool {
    forall|i: int, j: int|
        0 <= i < j < s.len() ==> lex_le(#[trigger] theme_key(s[i]), #[trigger] theme_key(s[j]))
}

proof fn lemma_lex_total(a: Seq<char>, b: Seq<char>)
    ensures
        lex_le(a, b) || lex_le(b, a),
    decreases a.len(),
{
    if a.len() > 0 && b.len() > 0 {
        if a[0] == b[0] {
            lemma_lex_total(a.drop_first(), b.drop_first());
        } else {
            vstd::utf8::char_u32_cast(a[0], a[0] as u32);
            vstd::utf8::char_u32_cast(b[0], b[0] as u32);
        }
    }
}

proof fn lemma_lex_trans(a: Seq<char>, b: Seq<char>, c: Seq<char>)
    requires
        lex_le(a, b),
        lex_le(b, c),
    ensures
        lex_le(a, c),
    decreases a.len(),
{
    if a.len() > 0 && b.len() > 0 && c.len() > 0 && a[0] == b[0] && b[0] == c[0] {
        lemma_lex_trans(a.drop_first(), b.drop_first(), c.drop_first());
    }
}

proof fn lemma_insert_bound(s: Seq<ThemeView>, x: ThemeView, k: Seq<char>)
    requires
        forall|i: int| 0 <= i < s.len() ==> lex_le(#[trigger] theme_key(s[i]), k),
        lex_le(theme_key(x), k),
    ensures
        forall|i: int|
            0 <= i < insert_by_key(s, x).len() ==> lex_le(
                #[trigger] theme_key(insert_by_key(s, x)[i]),
                k,
            ),
    decreases s.len(),
{
    if s.len() > 0 && !lex_le(theme_key(s.last()), theme_key(x)) {
        let t = s.drop_last();
        assert forall|i: int| 0 <= i < t.len() implies lex_le(#[trigger] theme_key(t[i]), k) by {
            assert(t[i] == s[i]);
        }
        lemma_insert_bound(t, x, k);
        let r = insert_by_key(t, x);
        assert forall|i: int|
            0 <= i < insert_by_key(s, x).len() implies lex_le(
                #[trigger] theme_key(insert_by_key(s, x)[i]),
                k,
            ) by {
            if i < r.len() {
                assert(insert_by_key(s, x)[i] == r[i]);
            } else {
                assert(insert_by_key(s, x)[i] == s.last());
            }
        }
    }
}

proof fn lemma_insert_sorted(s: Seq<ThemeView>, x: ThemeView)
    requires
        sorted_by_key(s),
    ensures
        sorted_by_key(insert_by_key(s, x)),
        insert_by_key(s, x).len() == s.len() + 1,
    decreases s.len(),
{
    if s.len() == 0 {
    } else if !lex_le(theme_key(s.last()), theme_key(x)) {
        let t = s.drop_last();
        let l = s.last();
        assert(sorted_by_key(t)) by {
            assert forall|i: int, j: int| 0 <= i < j < t.len() implies lex_le(
                #[trigger] theme_key(t[i]),
                #[trigger] theme_key(t[j]),
            ) by {
                assert(t[i] == s[i] && t[j] == s[j]);
            }
        }
        lemma_insert_sorted(t, x);
        lemma_lex_total(theme_key(l), theme_key(x));
        assert forall|i: int| 0 <= i < t.len() implies lex_le(#[trigger] theme_key(t[i]), theme_key(l)) by {
            assert(t[i] == s[i]);
            assert(s[s.len() - 1] == l);
        }
        lemma_insert_bound(t, x, theme_key(l));
        let r = insert_by_key(t, x);
        let res = insert_by_key(s, x);
        assert(res == r.push(l));
        assert forall|i: int, j: int| 0 <= i < j < res.len() implies lex_le(
            #[trigger] theme_key(res[i]),
            #[trigger] theme_key(res[j]),
        ) by {
            if j < r.len() {
                assert(res[i] == r[i] && res[j] == r[j]);
            } else {
                assert(res[j] == l);
                assert(res[i] == r[i]);
            }
        }
    } else {
        let res = s.push(x);
        assert forall|i: int, j: int| 0 <= i < j < res.len() implies lex_le(
            #[trigger] theme_key(res[i]),
            #[trigger] theme_key(res[j]),
        ) by {
            if j < s.len() {
                assert(res[i] == s[i] && res[j] == s[j]);
            } else {
                assert(res[j] == x);
                assert(res[i] == s[i]);
                if i < s.len() - 1 {
                    assert(lex_le(theme_key(s[i]), theme_key(s[s.len() - 1])));
                    lemma_lex_trans(theme_key(s[i]), theme_key(s.last()), theme_key(x));
                }
            }
        }
    }
}

proof fn lemma_sort_sorted(s: Seq<ThemeView>)
    ensures
        sorted_by_key(sort_by_key(s)),
        sort_by_key(s).len() == s.len(),
    decreases s.len(),
{
    if s.len() > 0 {
        lemma_sort_sorted(s.drop_last());
        lemma_insert_sorted(sort_by_key(s.drop_last()), s.last());
    }
}

/// The theme list is in ascending order of lower-case name, whatever files
/// were found.
pub proof fn law_discovered_themes_sorted(entries: Seq<(Seq<char>, Seq<char>)>)
    ensures
        sorted_by_key(discover_spec(entries)),
{
    let disk = disk_theme_views(entries);
    lemma_sort_sorted(disk + missing_builtins(builtin_themes_spec(), view_names(disk)));
}


proof fn lemma_insert_perm(s: Seq<ThemeView>, x: ThemeView)
    ensures
        insert_by_key(s, x).to_multiset() == s.to_multiset().insert(x),
    decreases s.len(),
{
    if s.len() == 0 {
        vstd::seq_lib::to_multiset_build(s, x);
        assert(seq![x] == s.push(x));
    } else if !lex_le(theme_key(s.last()), theme_key(x)) {
        let t = s.drop_last();
        let l = s.last();
        lemma_insert_perm(t, x);
        assert(s == t.push(l));
        vstd::seq_lib::to_multiset_build(insert_by_key(t, x), l);
        vstd::seq_lib::to_multiset_build(t, l);
        assert(insert_by_key(s, x).to_multiset() =~= s.to_multiset().insert(x));
    } else {
        vstd::seq_lib::to_multiset_build(s, x);
    }
}

proof fn lemma_sort_perm(s: Seq<ThemeView>)
    ensures
        sort_by_key(s).to_multiset() == s.to_multiset(),
    decreases s.len(),
{
    if s.len() > 0 {
        lemma_sort_perm(s.drop_last());
        lemma_insert_perm(sort_by_key(s.drop_last()), s.last());
        assert(s == s.drop_last().push(s.last()));
        vstd::seq_lib::to_multiset_build(s.drop_last(), s.last());
    }
}

/// The theme list holds exactly the themes found on disk and the built-in
/// themes not found there: only the order changes.
pub proof fn law_discovered_themes_complete(entries: Seq<(Seq<char>, Seq<char>)>)
    ensures
        ({
            let disk = disk_theme_views(entries);
            discover_spec(entries).to_multiset() == (disk + missing_builtins(
                builtin_themes_spec(),
                view_names(disk),
            )).to_multiset()
        }),
{
    let disk = disk_theme_views(entries);
    lemma_sort_perm(disk + missing_builtins(builtin_themes_spec(), view_names(disk)));
}

/// Sorted insertion of one theme into `out`, whose keys are cached in `keys`.
fn insert_theme(out: &mut Vec<ThemeEntry>, keys: &mut Vec<Vec<char>>, x: ThemeEntry, kx: Vec<char>)
    requires
        old(out).len() == old(keys).len(),
        forall|i: int| 0 <= i < old(keys).len() ==> #[trigger] old(keys)@[i]@ == theme_key(
            theme_view(old(out)@[i]),
        ),
        kx@ == theme_key(theme_view(x)),
        x.config is None,
        no_configs(old(out)@),
    ensures
        no_configs(final(out)@),
        final(out).len() == final(keys).len(),
        forall|i: int| 0 <= i < final(keys).len() ==> #[trigger] final(keys)@[i]@ == theme_key(
            theme_view(final(out)@[i]),
        ),
        theme_views(final(out)@) == insert_by_key(theme_views(old(out)@), theme_view(x)),
{
    let ghost s = theme_views(out@);
    let ghost xv = theme_view(x);
    let mut p: usize = out.len();
    proof {
        assert(s.take(p as int) =~= s);
        assert(s.skip(p as int) =~= Seq::<ThemeView>::empty());
    }
    while p > 0 && !lex_le_exec(&keys[p - 1], &kx)
        invariant
            p <= out.len(),
            out.len() == keys.len(),
            s == theme_views(out@),
            forall|i: int| 0 <= i < keys.len() ==> #[trigger] keys@[i]@ == theme_key(
                theme_view(out@[i]),
            ),
            kx@ == theme_key(xv),
            xv == theme_view(x),
            x.config is None,
            no_configs(out@),
            insert_by_key(s, xv) == insert_by_key(s.take(p as int), xv) + s.skip(p as int),
        decreases p,
    {
        proof {
            assert(s[p - 1] == theme_view(out@[p - 1]));
            lemma_insert_split(s, xv, p as int);
            assert(s.skip(p - 1) =~= seq![s[p - 1]] + s.skip(p as int));
            assert(insert_by_key(s.take(p - 1), xv).push(s[p - 1]) + s.skip(p as int)
                =~= insert_by_key(s.take(p - 1), xv) + s.skip(p - 1));
        }
        p = p - 1;
    }
    proof {
        if p > 0 {
            assert(s[p - 1] == theme_view(out@[p - 1]));
            assert(s.take(p as int).last() == s[p - 1]);
        }
        assert(insert_by_key(s.take(p as int), xv) == s.take(p as int).push(xv));
        assert(insert_by_key(s, xv) =~= s.insert(p as int, xv));
    }
    let ghost old_out = out@;
    out.insert(p, x);
    keys.insert(p, kx);
    assert(theme_views(out@) =~= s.insert(p as int, xv));
    assert forall|i: int| 0 <= i < out@.len() implies (#[trigger] out@[i]).config is None by {
        if i < p {
            assert(out@[i] == old_out[i]);
        } else if i > p {
            assert(out@[i] == old_out[i - 1]);
        }
    }
    assert forall|i: int| 0 <= i < keys@.len() implies #[trigger] keys@[i]@ == theme_key(
        theme_view(out@[i]),
    ) by {
        if i < p {
            assert(out@[i] == old_out[i]);
        } else if i > p {
            assert(out@[i] == old_out[i - 1]);
        }
    }
}

pub open spec fn no_configs(s: Seq<ThemeEntry>) -> bool {
    forall|i: int| 0 <= i < s.len() ==> (#[trigger] s[i]).config is None
}

/// Sort themes by lower-case name, keeping the order of equal names.
fn sort_themes(themes: Vec<ThemeEntry>) -> (r: Vec<ThemeEntry>)
    requires
        no_configs(themes@),
    ensures
        theme_views(r@) == sort_by_key(theme_views(themes@)),
        no_configs(r@),
{
    let mut out: Vec<ThemeEntry> = Vec::new();
    let mut keys: Vec<Vec<char>> = Vec::new();
    let ghost all = theme_views(themes@);
    let ghost orig = themes@;
    let len0: usize = themes.len();
    let ghost n = themes@.len();
    assert(n == len0);
    let mut rest = themes;
    let mut i: usize = 0;
    proof {
        assert(all.take(0) =~= Seq::<ThemeView>::empty());
        assert(orig.skip(0) =~= orig);
    }
    while rest.len() > 0
        invariant
            i <= n,
            n == orig.len(),
            n <= usize::MAX,
            rest@ == orig.skip(i as int),
            no_configs(orig),
            all == theme_views(orig),
            out.len() == keys.len(),
            forall|k: int| 0 <= k < keys.len() ==> #[trigger] keys@[k]@ == theme_key(
                theme_view(out@[k]),
            ),
            theme_views(out@) == sort_by_key(all.take(i as int)),
            no_configs(out@),
        decreases rest.len(),
    {
        let x = rest.remove(0);
        assert(x == orig[i as int]);
        let name_lower = to_lowercase(x.name.as_str());
        let kx = chars_of(name_lower.as_str());
        let ghost before = out@;
        insert_theme(&mut out, &mut keys, x, kx);
        proof {
            assert(all.take(i + 1).drop_last() =~= all.take(i as int));
            assert(all.take(i + 1).last() == theme_view(orig[i as int]));
            assert(orig.skip(i as int).remove(0) =~= orig.skip(i + 1));
        }
        i = i + 1;
    }
    assert(i == n);
    assert(all.take(i as int) =~= all);
    out
}

// ── Discovery ────────────────────────────────────────────────────────────────

pub open spec fn pair_view(p: (String, String)) -> (Seq<char>, Seq<char>) {
    (p.0@, p.1@)
}

/// The theme a file found on disk stands for, if it is one: the built-in
/// description and categories when the catalog knows its name, otherwise
/// "`<name>` theme" in the catch-all category.
pub open spec fn disk_theme_view(fname: Seq<char>, path: Seq<char>) -> Option<ThemeView> {
    match theme_name_from_file_spec(fname) {
        Some(name) => {
            let defs = builtin_themes_spec();
            Some(
                ThemeView {
                    name,
                    description: match builtin_index(defs, name) {
                        Some(i) => defs[i].1,
                        None => name + " theme"@,
                    },
                    categories: match builtin_index(defs, name) {
                        Some(i) => defs[i].2,
                        None => seq![ThemeCategory::All],
                    },
                    path: Some(path),
                },
            )
        },
        None => None,
    }
}

/// The themes among files found on disk, in the order found.
pub open spec fn disk_theme_views(entries: Seq<(Seq<char>, Seq<char>)>) -> Seq<ThemeView>
    decreases entries.len(),
{
    if entries.len() == 0 {
        Seq::empty()
    } else {
        let r = disk_theme_views(entries.drop_last());
        match disk_theme_view(entries.last().0, entries.last().1) {
            Some(v) => r.push(v),
            None => r,
        }
    }
}

pub open spec fn view_names(vs: Seq<ThemeView>) -> Seq<Seq<char>> {
    vs.map_values(|v: ThemeView| v.name)
}

/// The built-in themes whose names are not in `seen`, in catalog order.
pub open spec fn missing_builtins(
    defs: Seq<(Seq<char>, Seq<char>, Seq<ThemeCategory>)>,
    seen: Seq<Seq<char>>,
) -> Seq<ThemeView>
    decreases defs.len(),
{
    if defs.len() == 0 {
        Seq::empty()
    } else {
        let r = missing_builtins(defs.drop_last(), seen);
        let d = defs.last();
        if seen.contains(d.0) {
            r
        } else {
            r.push(ThemeView { name: d.0, description: d.1, categories: d.2, path: None })
        }
    }
}

/// The full theme list: the themes found on disk, then the built-in themes
/// not found there, sorted by lower-case name.
pub open spec fn discover_spec(entries: Seq<(Seq<char>, Seq<char>)>) -> Seq<ThemeView> {
    let disk = disk_theme_views(entries);
    sort_by_key(disk + missing_builtins(builtin_themes_spec(), view_names(disk)))
}

fn copy_categories(v: &Vec<ThemeCategory>) -> (r: Vec<ThemeCategory>)
    ensures
        r@ == v@,
{
    let mut r: Vec<ThemeCategory> = Vec::new();
    let mut i: usize = 0;
    while i < v.len()
        invariant
            i <= v.len(),
            r@ == v@.take(i as int),
        decreases v.len() - i,
    {
        r.push(v[i]);
        i = i + 1;
        assert(r@ =~= v@.take(i as int));
    }
    assert(v@.take(i as int) =~= v@);
    r
}

fn contains_name(seen: &Vec<String>, name: &str) -> (r: bool)
    ensures
        r == seen@.map_values(|s: String| s@).contains(name@),
{
    let ghost sv = seen@.map_values(|s: String| s@);
    let mut i: usize = 0;
    while i < seen.len()
        invariant
            i <= seen.len(),
            sv == seen@.map_values(|s: String| s@),
            forall|k: int| 0 <= k < i ==> sv[k] != name@,
        decreases seen.len() - i,
    {
        if str_eq(seen[i].as_str(), name) {
            assert(sv[i as int] == name@);
            return true;
        }
        i = i + 1;
    }
    false
}

/// Build the full theme list from the files found in the themes directory,
/// given as (file name, path) pairs (none when there is no such directory):
/// those files that are themes, then every built-in theme not among them,
/// sorted by lower-case name.  No configuration is loaded yet.
pub fn discover_themes(disk: &Vec<(String, String)>) -> (r: Vec<ThemeEntry>)
    ensures
        theme_views(r@) == discover_spec(disk@.map_values(|p: (String, String)| pair_view(p))),
        no_configs(r@),
{
    let defs = builtin_themes();
    let ghost dv = disk@.map_values(|p: (String, String)| pair_view(p));
    let ghost defv = defs@.map_values(|d: ThemeDef| def_view(d));
    let mut themes: Vec<ThemeEntry> = Vec::new();
    let mut seen: Vec<String> = Vec::new();
    let mut i: usize = 0;
    while i < disk.len()
        invariant
            i <= disk.len(),
            dv == disk@.map_values(|p: (String, String)| pair_view(p)),
            defv == defs@.map_values(|d: ThemeDef| def_view(d)),
            defv == builtin_themes_spec(),
            theme_views(themes@) == disk_theme_views(dv.take(i as int)),
            seen@.map_values(|s: String| s@) == view_names(disk_theme_views(dv.take(i as int))),
            no_configs(themes@),
        decreases disk.len() - i,
    {
        let fname = &disk[i].0;
        let path = &disk[i].1;
        proof {
            assert(dv.take(i + 1).drop_last() =~= dv.take(i as int));
            assert(dv.take(i + 1).last() == (fname@, path@));
        }
        match theme_name_from_file(fname.as_str()) {
            Some(name) => {
                let b = lookup_builtin(&defs, name.as_str());
                proof {
                    lemma_builtin_index_bounds(defv, name@);
                }
                let description = match b {
                    Some(k) => owned(defs[k].description),
                    None => concat2(name.as_str(), " theme"),
                };
                let categories = match b {
                    Some(k) => copy_categories(&defs[k].categories),
                    None => vec![ThemeCategory::All],
                };
                let ghost sv0 = seen@;
                let ghost tv0 = themes@;
                seen.push(name.clone());
                let e = ThemeEntry {
                    name,
                    description,
                    categories,
                    path: Some(path.clone()),
                    config: None,
                };
                themes.push(e);
                proof {
                    let v = disk_theme_view(fname@, path@);
                    let nm = theme_name_from_file_spec(fname@).unwrap();
                    assert(e.name@ == nm);
                    match b {
                        Some(k) => {
                            assert(builtin_index(builtin_themes_spec(), nm) == Some(k as int));
                            assert(defv[k as int] == def_view(defs@[k as int]));
                            assert(e.description@ == builtin_themes_spec()[k as int].1);
                            assert(e.categories@ == builtin_themes_spec()[k as int].2);
                        },
                        None => {
                            assert(builtin_index(builtin_themes_spec(), nm) is None);
                            assert(e.categories@ =~= seq![ThemeCategory::All]);
                        },
                    }
                    assert(v == Some(theme_view(e)));
                    assert(theme_views(themes@) =~= theme_views(tv0).push(theme_view(e)));
                    assert(seen@.map_values(|s: String| s@) =~= sv0.map_values(|s: String| s@).push(
                        e.name@,
                    ));
                    assert(view_names(theme_views(tv0).push(theme_view(e))) =~= view_names(
                        theme_views(tv0),
                    ).push(e.name@));
                    assert forall|k: int| 0 <= k < themes@.len() implies (
                    #[trigger] themes@[k]).config is None by {
                        if k < tv0.len() {
                            assert(themes@[k] == tv0[k]);
                        }
                    }
                }
            },
            None => {},
        }
        i = i + 1;
    }
    assert(dv.take(i as int) =~= dv);
    let ghost disk_views = theme_views(themes@);
    let ghost names = seen@.map_values(|s: String| s@);
    let mut k: usize = 0;
    while k < defs.len()
        invariant
            k <= defs.len(),
            defv == defs@.map_values(|d: ThemeDef| def_view(d)),
            names == seen@.map_values(|s: String| s@),
            theme_views(themes@) == disk_views + missing_builtins(defv.take(k as int), names),
            no_configs(themes@),
        decreases defs.len() - k,
    {
        let d = &defs[k];
        proof {
            assert(defv.take(k + 1).drop_last() =~= defv.take(k as int));
            assert(defv.take(k + 1).last() == def_view(*d));
        }
        if !contains_name(&seen, d.name) {
            let ghost tv0 = themes@;
            let e = ThemeEntry {
                name: owned(d.name),
                description: owned(d.description),
                categories: copy_categories(&d.categories),
                path: None,
                config: None,
            };
            themes.push(e);
            proof {
                assert(theme_views(themes@) =~= theme_views(tv0).push(theme_view(e)));
                assert forall|j: int| 0 <= j < themes@.len() implies (
                #[trigger] themes@[j]).config is None by {
                    if j < tv0.len() {
                        assert(themes@[j] == tv0[j]);
                    }
                }
            }
        }
        k = k + 1;
    }
    assert(defv.take(k as int) =~= defv);
    sort_themes(themes)
}

// ── Filtering ────────────────────────────────────────────────────────────────

/// The indices `i < n` with `p(i)`, ascending.
pub open spec fn indices_where(n: nat, p: spec_fn(int) -> bool) -> Seq<usize>
    decreases n,
{
    if n == 0 {
        Seq::empty()
    } else {
        let r = indices_where((n - 1) as nat, p);
        if p(n - 1) {
            r.push((n - 1) as usize)
        } else {
            r
        }
    }
}

/// Every index that `indices_where(n, p)` lists is below `n`.
pub proof fn lemma_indices_below(n: nat, p: spec_fn(int) -> bool)
    ensures
        forall|i: int|
            0 <= i < indices_where(n, p).len() ==> #[trigger] indices_where(n, p)[i] < n,
    decreases n,
{
    if n > 0 {
        lemma_indices_below((n - 1) as nat, p);
        let r = indices_where((n - 1) as nat, p);
        assert forall|i: int| 0 <= i < indices_where(n, p).len() implies #[trigger] indices_where(
            n,
            p,
        )[i] < n by {
            if i < r.len() {
                assert(indices_where(n, p)[i] == r[i]);
            }
        }
    }
}

/// `s` ascends strictly.
pub open spec fn ascending(s: Seq<usize>) -> bool {
    forall|a: int, b: int| 0 <= a < b < s.len() ==> #[trigger] s[a] < #[trigger] s[b]
}

/// `indices_where(n, p)` lists, in ascending order, exactly the indices
/// below `n` where `p` holds.
pub proof fn lemma_indices_where_members(n: nat, p: spec_fn(int) -> bool)
    requires
        n <= usize::MAX + 1,
    ensures
        forall|k: usize| #[trigger] indices_where(n, p).contains(k) <==> (k < n && p(k as int)),
        ascending(indices_where(n, p)),
    decreases n,
{
    if n > 0 {
        let r0 = indices_where((n - 1) as nat, p);
        lemma_indices_where_members((n - 1) as nat, p);
        let r = indices_where(n, p);
        if p(n - 1) {
            assert(r == r0.push((n - 1) as usize));
            assert forall|k: usize| #[trigger] r.contains(k) <==> (k < n && p(k as int)) by {
                if r.contains(k) {
                    let j = choose|j: int| 0 <= j < r.len() && r[j] == k;
                    if j < r0.len() {
                        assert(r0[j] == k);
                        assert(r0.contains(k));
                    }
                }
                if k < n && p(k as int) {
                    if k == n - 1 {
                        assert(r[r0.len() as int] == k);
                    } else {
                        assert(r0.contains(k));
                        let j = choose|j: int| 0 <= j < r0.len() && r0[j] == k;
                        assert(r[j] == k);
                    }
                }
            }
            assert forall|a: int, b: int| 0 <= a < b < r.len() implies #[trigger] r[a] < #[trigger] r[b] by {
                assert(r[a] == r0[a]);
                assert(r0.contains(r0[a]));
                if b < r0.len() {
                    assert(r[b] == r0[b]);
                }
            }
        } else {
            assert(r == r0);
        }
    }
}

/// Keeping the items of a strictly ascending sequence that satisfy `pred`
/// keeps it strictly ascending, and keeps exactly those items.
pub proof fn lemma_filter_ascending(s: Seq<usize>, pred: spec_fn(usize) -> bool)
    requires
        ascending(s),
    ensures
        ascending(s.filter(pred)),
        forall|k: usize| #[trigger] s.filter(pred).contains(k) <==> (s.contains(k) && pred(k)),
    decreases s.len(),
{
    reveal(Seq::filter);
    if s.len() > 0 {
        let d = s.drop_last();
        assert(ascending(d));
        lemma_filter_ascending(d, pred);
        let f0 = d.filter(pred);
        let f = s.filter(pred);
        assert forall|k: usize| #[trigger] d.contains(k) implies k < s.last() by {
            let j = choose|j: int| 0 <= j < d.len() && d[j] == k;
            assert(s[j] == k);
        }
        assert forall|k: usize| #[trigger] s.contains(k) <==> (d.contains(k) || k == s.last()) by {
            if s.contains(k) {
                let j = choose|j: int| 0 <= j < s.len() && s[j] == k;
                if j < d.len() {
                    assert(d[j] == k);
                }
            }
            if d.contains(k) {
                let j = choose|j: int| 0 <= j < d.len() && d[j] == k;
                assert(s[j] == k);
            }
            if k == s.last() {
                assert(s[s.len() - 1] == k);
            }
        }
        if pred(s.last()) {
            assert(f == f0.push(s.last()));
            assert forall|k: usize| #[trigger] f.contains(k) <==> (s.contains(k) && pred(k)) by {
                if f.contains(k) {
                    let j = choose|j: int| 0 <= j < f.len() && f[j] == k;
                    if j < f0.len() {
                        assert(f0[j] == k);
                        assert(f0.contains(k));
                    }
                }
                if s.contains(k) && pred(k) {
                    if k == s.last() {
                        assert(f[f0.len() as int] == k);
                    } else {
                        assert(f0.contains(k));
                        let j = choose|j: int| 0 <= j < f0.len() && f0[j] == k;
                        assert(f[j] == k);
                    }
                }
            }
            assert forall|a: int, b: int| 0 <= a < b < f.len() implies #[trigger] f[a] < #[trigger] f[b] by {
                assert(f[a] == f0[a]);
                assert(f0.contains(f0[a]));
                if b < f0.len() {
                    assert(f[b] == f0[b]);
                }
            }
        } else {
            assert(f == f0);
        }
    }
}

/// Under a category other than `All`, the list holds, in ascending order,
/// exactly the themes that carry that category; a theme whose only
/// category is `All` shows under `All` alone.
pub proof fn law_category_filter_members(ts: Seq<ThemeView>, cat: ThemeCategory)
    requires
        cat != ThemeCategory::All,
        ts.len() <= usize::MAX,
    ensures
        forall|k: usize|
            #[trigger] filter_themes_spec(ts, cat).contains(k) <==> (k < ts.len()
                && ts[k as int].categories.contains(cat)),
        ascending(filter_themes_spec(ts, cat)),
{
    lemma_indices_where_members(ts.len(), |i: int| in_theme_category(ts[i], cat));
}

/// A theme shows under a category: `All` shows every theme.
pub open spec fn in_theme_category(t: ThemeView, cat: ThemeCategory) -> bool {
    cat == ThemeCategory::All || t.categories.contains(cat)
}

pub open spec fn filter_themes_spec(ts: Seq<ThemeView>, cat: ThemeCategory) -> Seq<usize> {
    indices_where(ts.len(), |i: int| in_theme_category(ts[i], cat))
}

proof fn lemma_indices_all(n: nat, p: spec_fn(int) -> bool)
    requires
        forall|i: int| 0 <= i < n ==> #[trigger] p(i),
        n <= usize::MAX + 1,
    ensures
        indices_where(n, p) == Seq::new(n, |i: int| i as usize),
    decreases n,
{
    if n > 0 {
        lemma_indices_all((n - 1) as nat, p);
        assert(p(n - 1));
        assert(indices_where(n, p) =~= Seq::new(n, |i: int| i as usize));
    }
}

/// The catch-all category lists every theme, in list order.
pub proof fn law_all_category_lists_every_theme(ts: Seq<ThemeView>)
    requires
        ts.len() <= usize::MAX,
    ensures
        filter_themes_spec(ts, ThemeCategory::All) == Seq::new(ts.len(), |i: int| i as usize),
{
    lemma_indices_all(ts.len(), |i: int| in_theme_category(ts[i], ThemeCategory::All));
}

fn has_category(v: &Vec<ThemeCategory>, c: ThemeCategory) -> (r: bool)
    ensures
        r == v@.contains(c),
{
    let mut i: usize = 0;
    while i < v.len()
        invariant
            i <= v.len(),
            forall|k: int| 0 <= k < i ==> v@[k] != c,
        decreases v.len() - i,
    {
        if v[i] == c {
            assert(v@[i as int] == c);
            return true;
        }
        i = i + 1;
    }
    false
}

/// Indices of the themes in a category (`All` gives every index).
pub fn filter_themes(themes: &Vec<ThemeEntry>, cat: ThemeCategory) -> (r: Vec<usize>)
    ensures
        r@ == filter_themes_spec(theme_views(themes@), cat),
{
    let ghost ts = theme_views(themes@);
    let ghost p = |i: int| in_theme_category(ts[i], cat);
    let mut r: Vec<usize> = Vec::new();
    let mut i: usize = 0;
    while i < themes.len()
        invariant
            i <= themes.len(),
            ts == theme_views(themes@),
            p == (|i: int| in_theme_category(ts[i], cat)),
            r@ == indices_where(i as nat, p),
        decreases themes.len() - i,
    {
        assert(ts[i as int] == theme_view(themes@[i as int]));
        if cat == ThemeCategory::All || has_category(&themes[i].categories, cat) {
            r.push(i);
        }
        i = i + 1;
    }
    r
}

/// A theme matches a search when its lower-case name or description holds
/// the lower-case query.
pub open spec fn search_matches(t: ThemeView, query: Seq<char>) -> bool {
    seq_contains(lowercase(t.name), lowercase(query)) || seq_contains(
        lowercase(t.description),
        lowercase(query),
    )
}

pub open spec fn search_themes_spec(ts: Seq<ThemeView>, query: Seq<char>) -> Seq<usize> {
    indices_where(ts.len(), |i: int| search_matches(ts[i], query))
}

/// Indices of the themes whose name or description holds the query,
/// ignoring case.
pub fn search_themes(themes: &Vec<ThemeEntry>, query: &str) -> (r: Vec<usize>)
    ensures
        r@ == search_themes_spec(theme_views(themes@), query@),
{
    let ghost ts = theme_views(themes@);
    let ghost p = |i: int| search_matches(ts[i], query@);
    let q = to_lowercase(query);
    let qv = chars_of(q.as_str());
    let mut r: Vec<usize> = Vec::new();
    let mut i: usize = 0;
    while i < themes.len()
        invariant
            i <= themes.len(),
            ts == theme_views(themes@),
            p == (|i: int| search_matches(ts[i], query@)),
            qv@ == lowercase(query@),
            r@ == indices_where(i as nat, p),
        decreases themes.len() - i,
    {
        assert(ts[i as int] == theme_view(themes@[i as int]));
        let nl = to_lowercase(themes[i].name.as_str());
        let dl = to_lowercase(themes[i].description.as_str());
        let nv = chars_of(nl.as_str());
        let dv = chars_of(dl.as_str());
        if vec_contains(&nv, &qv) || vec_contains(&dv, &qv) {
            r.push(i);
        }
        i = i + 1;
    }
    r
}

// ── Download ─────────────────────────────────────────────────────────────────

/// The base URL for raw Oh My Posh theme files on GitHub.
pub const OMP_THEMES_RAW_URL: &'static str =
    "https://raw.githubusercontent.com/JanDeDobbeleer/oh-my-posh/main/themes";

/// The file name of a theme: `<name>.omp.json`.
pub fn theme_file_name(name: &str) -> (r: String)
    ensures
        r@ == name@ + ".omp.json"@,
{
    concat2(name, ".omp.json")
}

/// The URL a theme file is downloaded from.
pub fn theme_download_url(name: &str) -> (r: String)
    ensures
        r@ == OMP_THEMES_RAW_URL@ + "/"@ + name@ + ".omp.json"@,
{
    let mut r = concat3(OMP_THEMES_RAW_URL, "/", name);
    r.append(".omp.json");
    r
}

/// The command that downloads `url` into the file `dest`: PowerShell's
/// `Invoke-WebRequest` on Windows, `curl` elsewhere.
pub fn download_command(platform: Platform, url: &str, dest: &str) -> (c: crate::platform::CommandLine)
    ensures
        platform == Platform::Windows ==> c.program@ == "powershell"@ && c.args.len() == 5
            && c.args@[0]@ == "-NoProfile"@ && c.args@[1]@ == "-ExecutionPolicy"@
            && c.args@[2]@ == "Bypass"@ && c.args@[3]@ == "-Command"@ && c.args@[4]@
            == "[Net.ServicePointManager]::SecurityProtocol = [Net.SecurityProtocolType]::Tls12; Invoke-WebRequest -Uri '"@
            + url@ + "' -OutFile '"@ + dest@ + "' -UseBasicParsing"@,
        platform != Platform::Windows ==> c.program@ == "curl"@ && c.args.len() == 4
            && c.args@[0]@ == "-fsSL"@ && c.args@[1]@ == "-o"@ && c.args@[2]@ == dest@
            && c.args@[3]@ == url@,
{
    if platform == Platform::Windows {
        let mut cmd = concat3(
            "[Net.ServicePointManager]::SecurityProtocol = [Net.SecurityProtocolType]::Tls12; Invoke-WebRequest -Uri '",
            url,
            "' -OutFile '",
        );
        cmd.append(dest);
        cmd.append("' -UseBasicParsing");
        crate::platform::CommandLine {
            program: "powershell",
            args: vec![owned("-NoProfile"), owned("-ExecutionPolicy"), owned("Bypass"), owned("-Command"), cmd],
        }
    } else {
        crate::platform::CommandLine {
            program: "curl",
            args: vec![owned("-fsSL"), owned("-o"), owned(dest), owned(url)],
        }
    }
}

/// The verdict on a theme download.
pub open spec fn download_result_spec(
    platform: Platform,
    name: Seq<char>,
    outcome: CommandOutcome,
    file_size: Option<u64>,
) -> Result<(), Seq<char>> {
    match outcome {
        CommandOutcome::NotRun { error } => Err(
            (if platform == Platform::Windows {
                "Failed to run PowerShell: "@
            } else {
                "Failed to run curl: "@
            }) + error@,
        ),
        CommandOutcome::Ran { success, stderr } => if !success {
            Err("Download failed: "@ + trim_spec(stderr@))
        } else if file_size matches Some(n) && n > 10 {
            Ok(())
        } else {
            Err("Downloaded file is missing or empty for '"@ + name + "'"@)
        },
    }
}

pub open spec fn result_view(r: Result<(), String>) -> Result<(), Seq<char>> {
    match r {
        Ok(()) => Ok(()),
        Err(e) => Err(e@),
    }
}

/// Judge a theme download from the download command's outcome and the size
/// of the file it left (`None` when there is no file).
pub fn download_result(
    platform: Platform,
    name: &str,
    outcome: &CommandOutcome,
    file_size: Option<u64>,
) -> (r: Result<(), String>)
    ensures
        result_view(r) == download_result_spec(platform, name@, *outcome, file_size),
{
    match outcome {
        CommandOutcome::NotRun { error } => {
            if platform == Platform::Windows {
                Err(concat2("Failed to run PowerShell: ", error.as_str()))
            } else {
                Err(concat2("Failed to run curl: ", error.as_str()))
            }
        },
        CommandOutcome::Ran { success, stderr } => {
            if !*success {
                let t = trim_str(stderr.as_str());
                Err(concat2("Download failed: ", t.as_str()))
            } else {
                match file_size {
                    Some(n) => if n > 10 {
                        Ok(())
                    } else {
                        Err(concat3("Downloaded file is missing or empty for '", name, "'"))
                    },
                    None => Err(concat3("Downloaded file is missing or empty for '", name, "'")),
                }
            }
        },
    }
}

/// The files that may already hold a theme, in the order they are tried:
/// its own file, then `<name>.omp.json` in the Oh My Posh themes directory.
pub open spec fn theme_file_candidates_spec(theme: ThemeView, themes_dir: Option<Seq<char>>) -> Seq<
    Seq<char>,
> {
    (match theme.path {
        Some(p) => seq![p],
        None => Seq::empty(),
    }) + (match themes_dir {
        Some(d) => seq![crate::paths::path_join(d, theme.name + ".omp.json"@)],
        None => Seq::empty(),
    })
}

/// Where to look for a theme's file before downloading it.
pub fn theme_file_candidates(theme: &ThemeEntry, themes_dir: Option<&str>) -> (r: Vec<String>)
    ensures
        r@.map_values(|s: String| s@) == theme_file_candidates_spec(
            theme_view(*theme),
            opt_str_view(themes_dir),
        ),
{
    let mut r: Vec<String> = Vec::new();
    match &theme.path {
        Some(p) => r.push(p.clone()),
        None => {},
    }
    match themes_dir {
        Some(d) => {
            let f = theme_file_name(theme.name.as_str());
            r.push(crate::paths::join_path(d, f.as_str()));
        },
        None => {},
    }
    assert(r@.map_values(|s: String| s@) =~= theme_file_candidates_spec(
        theme_view(*theme),
        opt_str_view(themes_dir),
    ));
    r
}

/// What happened to one built-in theme during a bulk download.
#[derive(Debug, Clone, Copy, PartialEq, Eq, Structural)]
pub enum ThemeFetch {
    /// The file was already there; nothing was downloaded.
    AlreadyPresent,
    Downloaded,
    Failed,
}

pub open spec fn count_fetch(v: Seq<ThemeFetch>, f: ThemeFetch) -> nat
    decreases v.len(),
{
    if v.len() == 0 {
        0
    } else {
        count_fetch(v.drop_last(), f) + (if v.last() == f {
            1nat
        } else {
            0nat
        })
    }
}

proof fn lemma_count_fetch_le(v: Seq<ThemeFetch>, f: ThemeFetch)
    ensures
        count_fetch(v, f) <= v.len(),
    decreases v.len(),
{
    if v.len() > 0 {
        lemma_count_fetch_le(v.drop_last(), f);
    }
}

/// Tally a bulk download of the built-in themes: (downloaded, failed).
pub fn download_all_themes(fetches: &Vec<ThemeFetch>) -> (r: (usize, usize))
    ensures
        r.0 == count_fetch(fetches@, ThemeFetch::Downloaded),
        r.1 == count_fetch(fetches@, ThemeFetch::Failed),
{
    let mut ok: usize = 0;
    let mut fail: usize = 0;
    let mut i: usize = 0;
    while i < fetches.len()
        invariant
            i <= fetches.len(),
            ok == count_fetch(fetches@.take(i as int), ThemeFetch::Downloaded),
            fail == count_fetch(fetches@.take(i as int), ThemeFetch::Failed),
        decreases fetches.len() - i,
    {
        proof {
            assert(fetches@.take(i + 1).drop_last() =~= fetches@.take(i as int));
            lemma_count_fetch_le(fetches@.take(i as int), ThemeFetch::Downloaded);
            lemma_count_fetch_le(fetches@.take(i as int), ThemeFetch::Failed);
        }
        match fetches[i] {
            ThemeFetch::Downloaded => {
                ok = ok + 1;
            },
            ThemeFetch::Failed => {
                fail = fail + 1;
            },
            ThemeFetch::AlreadyPresent => {},
        }
        i = i + 1;
    }
    assert(fetches@.take(i as int) =~= fetches@);
    (ok, fail)
}

} // verus!
