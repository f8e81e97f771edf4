//! What the operator can ask for, and the filter that it becomes.

use crate::search::{Arch, Language, Platform, SearchParams};
use vstd::prelude::*;
use vstd::std_specs::convert::FromSpecImpl;

verus! {

/// What the operator asked for on the command line.
#[derive(Debug, Clone, PartialEq, Eq)]
pub struct Cli {
    /// Challenge name to search for.
    pub name: Option<String>,
    /// Challenge author to search for.
    pub author: Option<String>,
    /// Difficulty level.
    pub difficulty: Option<DifficultyLevel>,
    /// Quality level.
    pub quality: Option<QualityLevel>,
    /// Programming language.
    pub language: Option<LanguageArg>,
    /// Architecture.
    pub arch: Option<ArchArg>,
    /// Platform.
    pub platform: Option<PlatformArg>,
}

/// A named band of difficulty scores.
#[derive(Debug, Clone, Copy, PartialEq, Eq, Structural)]
pub enum DifficultyLevel {
    Easy,
    Medium,
    Hard,
    Hardcore,
}

impl DifficultyLevel {
    /// The lowest difficulty score of the band.
    pub open spec fn low(self) -> int {
        match self {
            DifficultyLevel::Easy => 1,
            DifficultyLevel::Medium => 2,
            DifficultyLevel::Hard => 3,
            DifficultyLevel::Hardcore => 4,
        }
    }

    /// The highest difficulty score of the band.
    pub open spec fn high(self) -> int {
        self.low() + 1
    }

    /// The band as an inclusive range of difficulty scores.
    pub fn to_range(self) -> (band: [i32; 2])
        ensures
            band[0] == self.low(),
            band[1] == self.high(),
    {
        match self {
            DifficultyLevel::Easy => [1, 2],
            DifficultyLevel::Medium => [2, 3],
            DifficultyLevel::Hard => [3, 4],
            DifficultyLevel::Hardcore => [4, 5],
        }
    }
}

/// A named band of quality scores.
#[derive(Debug, Clone, Copy, PartialEq, Eq, Structural)]
pub enum QualityLevel {
    Poor,
    Flaky,
    Good,
    Mint,
}

impl QualityLevel {
    /// The lowest quality score of the band.
    pub open spec fn low(self) -> int {
        match self {
            QualityLevel::Poor => 1,
            QualityLevel::Flaky => 2,
            QualityLevel::Good => 3,
            QualityLevel::Mint => 4,
        }
    }

    /// The highest quality score of the band.
    pub open spec fn high(self) -> int {
        self.low() + 1
    }

    /// The band as an inclusive range of quality scores.
    pub fn to_range(self) -> (band: [i32; 2])
        ensures
            band[0] == self.low(),
            band[1] == self.high(),
    {
        match self {
            QualityLevel::Poor => [1, 2],
            QualityLevel::Flaky => [2, 3],
            QualityLevel::Good => [3, 4],
            QualityLevel::Mint => [4, 5],
        }
    }
}

/// A language as the operator names it.
#[derive(Debug, Clone, Copy, PartialEq, Eq, Structural)]
pub enum LanguageArg {
    Ccpp,
    Assembler,
    Java,
    Go,
    Rust,
    Wasm,
    Basic,
    Borland,
    Pascal,
    Dotnet,
    Other,
}

impl LanguageArg {
    /// The language that this argument names.
    pub open spec fn chosen(self) -> Language {
        match self {
            LanguageArg::Ccpp => Language::Ccpp,
            LanguageArg::Assembler => Language::Assembler,
            LanguageArg::Java => Language::Java,
            LanguageArg::Go => Language::Go,
            LanguageArg::Rust => Language::Rust,
            LanguageArg::Wasm => Language::Wasm,
            LanguageArg::Basic => Language::Basic,
            LanguageArg::Borland => Language::Borland,
            LanguageArg::Pascal => Language::Pascal,
            LanguageArg::Dotnet => Language::Dotnet,
            LanguageArg::Other => Language::Other,
        }
    }
}

impl From<LanguageArg> for Language {
    fn from(lang: LanguageArg) -> (chosen: Language) {
        match lang {
            LanguageArg::Ccpp => Language::Ccpp,
            LanguageArg::Assembler => Language::Assembler,
            LanguageArg::Java => Language::Java,
            LanguageArg::Go => Language::Go,
            LanguageArg::Rust => Language::Rust,
            LanguageArg::Wasm => Language::Wasm,
            LanguageArg::Basic => Language::Basic,
            LanguageArg::Borland => Language::Borland,
            LanguageArg::Pascal => Language::Pascal,
            LanguageArg::Dotnet => Language::Dotnet,
            LanguageArg::Other => Language::Other,
        }
    }
}

impl FromSpecImpl<LanguageArg> for Language {
    open spec fn obeys_from_spec() -> bool {
        true
    }

    open spec fn from_spec(lang: LanguageArg) -> Language {
        lang.chosen()
    }
}

/// An architecture as the operator names it.
#[derive(Debug, Clone, Copy, PartialEq, Eq, Structural)]
pub enum ArchArg {
    X86,
    X8664,
    Java,
    Arm,
    Mips,
    Riscv,
    Other,
}

impl ArchArg {
    /// The architecture that this argument names.
    pub open spec fn chosen(self) -> Arch {
        match self {
            ArchArg::X86 => Arch::X86,
            ArchArg::X8664 => Arch::X8664,
            ArchArg::Java => Arch::Java,
            ArchArg::Arm => Arch::Arm,
            ArchArg::Mips => Arch::Mips,
            ArchArg::Riscv => Arch::RiscV,
            ArchArg::Other => Arch::Other,
        }
    }
}

impl From<ArchArg> for Arch {
    fn from(arch: ArchArg) -> (chosen: Arch) {
        match arch {
            ArchArg::X86 => Arch::X86,
            ArchArg::X8664 => Arch::X8664,
            ArchArg::Java => Arch::Java,
            ArchArg::Arm => Arch::Arm,
            ArchArg::Mips => Arch::Mips,
            ArchArg::Riscv => Arch::RiscV,
            ArchArg::Other => Arch::Other,
        }
    }
}

impl FromSpecImpl<ArchArg> for Arch {
    open spec fn obeys_from_spec() -> bool {
        true
    }

    open spec fn from_spec(arch: ArchArg) -> Arch {
        arch.chosen()
    }
}

/// A platform as the operator names it.
#[derive(Debug, Clone, Copy, PartialEq, Eq, Structural)]
pub enum PlatformArg {
    Dos,
    MacOSX,
    Multiplatform,
    Unix,
    Windows,
    WindowsXP,
    Windows7,
    Android,
    Ios,
    Other,
}

impl PlatformArg {
    /// The platform that this argument names.
    pub open spec fn chosen(self) -> Platform {
        match self {
            PlatformArg::Dos => Platform::Dos,
            PlatformArg::MacOSX => Platform::MacOSX,
            PlatformArg::Multiplatform => Platform::Multiplatform,
            PlatformArg::Unix => Platform::Unix,
            PlatformArg::Windows => Platform::Windows,
            PlatformArg::WindowsXP => Platform::WindowsXP,
            PlatformArg::Windows7 => Platform::Windows7,
            PlatformArg::Android => Platform::Android,
            PlatformArg::Ios => Platform::Ios,
            PlatformArg::Other => Platform::Other,
        }
    }
}

impl From<PlatformArg> for Platform {
    fn from(platform: PlatformArg) -> (chosen: Platform) {
        match platform {
            PlatformArg::Dos => Platform::Dos,
            PlatformArg::MacOSX => Platform::MacOSX,
            PlatformArg::Multiplatform => Platform::Multiplatform,
            PlatformArg::Unix => Platform::Unix,
            PlatformArg::Windows => Platform::Windows,
            PlatformArg::WindowsXP => Platform::WindowsXP,
            PlatformArg::Windows7 => Platform::Windows7,
            PlatformArg::Android => Platform::Android,
            PlatformArg::Ios => Platform::Ios,
            PlatformArg::Other => Platform::Other,
        }
    }
}

impl FromSpecImpl<PlatformArg> for Platform {
    open spec fn obeys_from_spec() -> bool {
        true
    }

    open spec fn from_spec(platform: PlatformArg) -> Platform {
        platform.chosen()
    }
}

/// The band a level stands for, or the catalog-wide band `[1, 6]` where no
/// level was chosen.
pub open spec fn difficulty_band(level: Option<DifficultyLevel>) -> (int, int) {
    match level {
        Some(d) => (d.low(), d.high()),
        None => (1, 6),
    }
}

/// The band a level stands for, or the catalog-wide band `[1, 6]` where no
/// level was chosen.
pub open spec fn quality_band(level: Option<QualityLevel>) -> (int, int) {
    match level {
        Some(q) => (q.low(), q.high()),
        None => (1, 6),
    }
}

impl Cli {
    /// Builds the filter for this command line, to be sent with `token`.
    ///
    /// Both bands are always present in the result: a level that was not
    /// chosen becomes the catalog-wide band `[1, 6]`.
    pub fn to_search_params(&self, token: String) -> (params: SearchParams)
        ensures
            params.name == self.name,
            params.author == self.author,
            params.difficulty_range matches Some(band) && (band[0] as int, band[1] as int)
                == difficulty_band(self.difficulty),
            params.quality_range matches Some(band) && (band[0] as int, band[1] as int)
                == quality_band(self.quality),
            params.language == match self.language {
                Some(l) => Some(l.chosen()),
                None => None,
            },
            params.arch == match self.arch {
                Some(a) => Some(a.chosen()),
                None => None,
            },
            params.platform == match self.platform {
                Some(p) => Some(p.chosen()),
                None => None,
            },
            params.token == token,
            params.wf(),
    {
        let difficulty_range = match self.difficulty {
            Some(d) => d.to_range(),
            None => [1, 6],
        };
        let quality_range = match self.quality {
            Some(q) => q.to_range(),
            None => [1, 6],
        };
        SearchParams {
            name: clone_text(&self.name),
            author: clone_text(&self.author),
            difficulty_range: Some(difficulty_range),
            quality_range: Some(quality_range),
            language: match self.language {
                Some(l) => Some(Language::from(l)),
                None => None,
            },
            arch: match self.arch {
                Some(a) => Some(Arch::from(a)),
                None => None,
            },
            platform: match self.platform {
                Some(p) => Some(Platform::from(p)),
                None => None,
            },
            token,
        }
    }
}

/// A copy of an optional text.
fn clone_text(text: &Option<String>) -> (copy: Option<String>)
    ensures
        copy == *text,
{
    match text {
        Some(s) => Some(s.clone()),
        None => None,
    }
}

} // verus!
