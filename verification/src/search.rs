//! The filter over the catalog, its vocabulary, and the request that posts
//! it.

use crate::text::{decimal_of, push_signed_decimal, same_text};
use vstd::prelude::*;
use vstd::std_specs::convert::FromSpecImpl;
use vstd::string::StringExecFns;

verus! {

/// A filter over the catalog together with the form token of the session
/// that will send it.
///
/// An absent text or vocabulary field places no constraint. An absent range
/// stands for the catalog-wide band `[1, 6]`.
#[derive(Debug, Clone, PartialEq, Eq)]
pub struct SearchParams {
    pub name: Option<String>,
    pub author: Option<String>,
    pub difficulty_range: Option<[i32; 2]>,
    pub quality_range: Option<[i32; 2]>,
    pub language: Option<Language>,
    pub arch: Option<Arch>,
    pub platform: Option<Platform>,
    pub token: String,
}

/// One `key=value` field of a query: its key and its value.
pub type Field = (Seq<char>, Seq<char>);

/// The text of an optional free-text filter: empty where it is absent.
pub open spec fn text_or_empty(t: Option<String>) -> Seq<char> {
    match t {
        Some(s) => s@,
        None => Seq::empty(),
    }
}

/// The lower bound of an optional band: 1 where the band is absent.
pub open spec fn low_or_default(r: Option<[i32; 2]>) -> int {
    match r {
        Some(band) => band[0] as int,
        None => 1,
    }
}

/// The upper bound of an optional band: 6 where the band is absent.
pub open spec fn high_or_default(r: Option<[i32; 2]>) -> int {
    match r {
        Some(band) => band[1] as int,
        None => 6,
    }
}

/// A field as it is written in a query: key, `=`, value.
pub open spec fn field_text(f: Field) -> Seq<char> {
    f.0 + seq!['='] + f.1
}

/// The written fields, in order, with `&` between neighbours.
pub open spec fn join_fields(fields: Seq<Field>) -> Seq<char>
    decreases fields.len(),
{
    if fields.len() == 0 {
        Seq::empty()
    } else if fields.len() == 1 {
        field_text(fields[0])
    } else {
        join_fields(fields.drop_last()) + seq!['&'] + field_text(fields.last())
    }
}

/// The ten keys of a query, in the order the catalog expects them.
pub open spec fn query_keys() -> Seq<Seq<char>> {
    seq![
        "name"@,
        "author"@,
        "difficulty-min"@,
        "difficulty-max"@,
        "quality-min"@,
        "quality-max"@,
        "token"@,
        "language"@,
        "arch"@,
        "platform"@,
    ]
}

impl SearchParams {
    /// Both bands, where present, run from a lower to a not smaller upper
    /// bound.
    pub open spec fn wf(&self) -> bool {
        &&& low_or_default(self.difficulty_range) <= high_or_default(self.difficulty_range)
        &&& low_or_default(self.quality_range) <= high_or_default(self.quality_range)
    }

    /// The ten values of the query, in the order of `query_keys`.
    pub open spec fn query_values(&self) -> Seq<Seq<char>> {
        seq![
            text_or_empty(self.name),
            text_or_empty(self.author),
            decimal_of(low_or_default(self.difficulty_range)),
            decimal_of(high_or_default(self.difficulty_range)),
            decimal_of(low_or_default(self.quality_range)),
            decimal_of(high_or_default(self.quality_range)),
            self.token@,
            match self.language {
                Some(l) => l.wire(),
                None => Seq::empty(),
            },
            match self.arch {
                Some(a) => a.wire(),
                None => Seq::empty(),
            },
            match self.platform {
                Some(p) => p.wire(),
                None => Seq::empty(),
            },
        ]
    }

    /// The fields of the query: each key of `query_keys` with its value.
    pub open spec fn query_fields(&self) -> Seq<Field> {
        Seq::new(10, |i: int| (query_keys()[i], self.query_values()[i]))
    }

    /// The query body: the ten fields joined by `&`.
    pub open spec fn encoded(&self) -> Seq<char> {
        join_fields(self.query_fields())
    }

    /// Renders the query body that the catalog's search form posts.
    pub fn to_string(&self) -> (body: String)
        ensures
            body@ == self.encoded(),
    {
        let ghost fields = self.query_fields();
        let mut body = String::new();
        let name = match &self.name {
            Some(s) => s.as_str(),
            None => "",
        };
        let author = match &self.author {
            Some(s) => s.as_str(),
            None => "",
        };
        let (difficulty_min, difficulty_max) = band_texts(&self.difficulty_range);
        let (quality_min, quality_max) = band_texts(&self.quality_range);
        let language = match &self.language {
            Some(l) => l.to_string(),
            None => String::new(),
        };
        let arch = match &self.arch {
            Some(a) => a.to_string(),
            None => String::new(),
        };
        let platform = match &self.platform {
            Some(p) => p.to_string(),
            None => String::new(),
        };
        proof {
            reveal_strlit("");
            assert(name@ =~= fields[0].1);
            assert(author@ =~= fields[1].1);
            assert(fields.take(0) =~= Seq::empty());
            assert(fields.take(10) =~= fields);
        }
        push_field(&mut body, "name", name, Ghost(fields), 0);
        push_field(&mut body, "author", author, Ghost(fields), 1);
        push_field(&mut body, "difficulty-min", difficulty_min.as_str(), Ghost(fields), 2);
        push_field(&mut body, "difficulty-max", difficulty_max.as_str(), Ghost(fields), 3);
        push_field(&mut body, "quality-min", quality_min.as_str(), Ghost(fields), 4);
        push_field(&mut body, "quality-max", quality_max.as_str(), Ghost(fields), 5);
        push_field(&mut body, "token", self.token.as_str(), Ghost(fields), 6);
        push_field(&mut body, "language", language.as_str(), Ghost(fields), 7);
        push_field(&mut body, "arch", arch.as_str(), Ghost(fields), 8);
        push_field(&mut body, "platform", platform.as_str(), Ghost(fields), 9);
        body
    }
}

/// A search, ready to be posted: where it goes, the two headers that go
/// with it, and its body.
#[derive(Debug, Clone, PartialEq, Eq)]
pub struct SearchRequest {
    pub url: String,
    /// The value of the `Cookie` header: the session identifier under the
    /// name of the session cookie.
    pub cookie: String,
    /// The value of the `Content-Type` header.
    pub content_type: String,
    pub body: String,
}

/// The cookie header that carries a session identifier back to the catalog.
pub open spec fn cookie_header_of(session_id: Seq<char>) -> Seq<char> {
    "gosess="@ + session_id
}

/// Renders the cookie header that carries a session identifier back to the
/// catalog.
pub fn cookie_header(session_id: &str) -> (header: String)
    ensures
        header@ == cookie_header_of(session_id@),
{
    let mut header = "gosess=".to_owned();
    header.append(session_id);
    header
}

/// Describes the request that posts a filter to the catalog.
///
/// The form token travels in the body, as the filter holds it. The session
/// identifier travels in the cookie header and nowhere else.
pub fn search_request(params: &SearchParams, session_id: &str) -> (request: SearchRequest)
    ensures
        request.url@ == "https://crackmes.one/search"@,
        request.cookie@ == cookie_header_of(session_id@),
        request.content_type@ == "application/x-www-form-urlencoded"@,
        request.body@ == params.encoded(),
{
    SearchRequest {
        url: "https://crackmes.one/search".to_owned(),
        cookie: cookie_header(session_id),
        content_type: "application/x-www-form-urlencoded".to_owned(),
        body: params.to_string(),
    }
}

/// The decimal texts of a band's two bounds, with the catalog-wide band in
/// place of an absent one.
fn band_texts(band: &Option<[i32; 2]>) -> (texts: (String, String))
    ensures
        texts.0@ == decimal_of(low_or_default(*band)),
        texts.1@ == decimal_of(high_or_default(*band)),
{
    let (low, high): (i32, i32) = match band {
        Some(b) => (b[0], b[1]),
        None => (1, 6),
    };
    let mut low_text = String::new();
    push_signed_decimal(&mut low_text, low);
    let mut high_text = String::new();
    push_signed_decimal(&mut high_text, high);
    assert(low_text@ =~= decimal_of(low as int));
    assert(high_text@ =~= decimal_of(high as int));
    (low_text, high_text)
}

/// Appends field `at` of `fields` to a body that holds the fields before it.
fn push_field(
    body: &mut String,
    key: &str,
    value: &str,
    Ghost(fields): Ghost<Seq<Field>>,
    at: usize,
)
    requires
        at < fields.len(),
        fields[at as int] == (key@, value@),
        old(body)@ == join_fields(fields.take(at as int)),
    ensures
        final(body)@ == join_fields(fields.take(at + 1)),
{
    if at > 0 {
        proof {
            reveal_strlit("&");
        }
        body.append("&");
    }
    proof {
        reveal_strlit("=");
    }
    body.append(key);
    body.append("=");
    body.append(value);
    proof {
        let before = fields.take(at as int);
        let now = fields.take(at + 1);
        assert(now.drop_last() =~= before);
        assert(now.last() == (key@, value@));
        assert(body@ =~= join_fields(now));
    }
}

/// The implementation language of a challenge.
#[derive(Debug, Clone, Copy, PartialEq, Eq, Structural)]
pub enum Language {
    Ccpp,
    Assembler,
    Java,
    Go,
    Rust,
    Wasm,
    Basic,
    Borland,
    Pascal,
    Dotnet,
    Other,
}

impl Language {
    /// The catalog's wire string for this language.
    pub open spec fn wire(self) -> Seq<char> {
        match self {
            Language::Ccpp => "C/C++"@,
            Language::Assembler => "Assembler"@,
            Language::Java => "Java"@,
            Language::Go => "Go"@,
            Language::Rust => "Rust"@,
            Language::Wasm => "WebAssembly"@,
            Language::Basic => "(Visual) Basic"@,
            Language::Borland => "Borland Delphi"@,
            Language::Pascal => "Turbo Pascal"@,
            Language::Dotnet => ".NET"@,
            Language::Other => "Unspecified/other"@,
        }
    }

    /// The language that a wire string stands for: the variant whose wire string
    /// it is, and `Other` for every other text.
    pub open spec fn of_wire(s: Seq<char>) -> Language {
        if s == "C/C++"@ {
            Language::Ccpp
        } else if s == "Assembler"@ {
            Language::Assembler
        } else if s == "Java"@ {
            Language::Java
        } else if s == "Go"@ {
            Language::Go
        } else if s == "Rust"@ {
            Language::Rust
        } else if s == "WebAssembly"@ {
            Language::Wasm
        } else if s == "(Visual) Basic"@ {
            Language::Basic
        } else if s == "Borland Delphi"@ {
            Language::Borland
        } else if s == "Turbo Pascal"@ {
            Language::Pascal
        } else if s == ".NET"@ {
            Language::Dotnet
        } else {
            Language::Other
        }
    }

    /// Renders the language as its wire string.
    pub fn to_string(&self) -> (text: String)
        ensures
            text@ == self.wire(),
    {
        match self {
            Language::Ccpp => "C/C++".to_owned(),
            Language::Assembler => "Assembler".to_owned(),
            Language::Java => "Java".to_owned(),
            Language::Go => "Go".to_owned(),
            Language::Rust => "Rust".to_owned(),
            Language::Wasm => "WebAssembly".to_owned(),
            Language::Basic => "(Visual) Basic".to_owned(),
            Language::Borland => "Borland Delphi".to_owned(),
            Language::Pascal => "Turbo Pascal".to_owned(),
            Language::Dotnet => ".NET".to_owned(),
            Language::Other => "Unspecified/other".to_owned(),
        }
    }
}

impl<'a> From<&'a str> for Language {
    fn from(s: &'a str) -> (parsed: Language) {
        if same_text(s, "C/C++") {
            Language::Ccpp
        } else if same_text(s, "Assembler") {
            Language::Assembler
        } else if same_text(s, "Java") {
            Language::Java
        } else if same_text(s, "Go") {
            Language::Go
        } else if same_text(s, "Rust") {
            Language::Rust
        } else if same_text(s, "WebAssembly") {
            Language::Wasm
        } else if same_text(s, "(Visual) Basic") {
            Language::Basic
        } else if same_text(s, "Borland Delphi") {
            Language::Borland
        } else if same_text(s, "Turbo Pascal") {
            Language::Pascal
        } else if same_text(s, ".NET") {
            Language::Dotnet
        } else {
            Language::Other
        }
    }
}

impl<'a> FromSpecImpl<&'a str> for Language {
    open spec fn obeys_from_spec() -> bool {
        true
    }

    open spec fn from_spec(s: &'a str) -> Language {
        Language::of_wire(s@)
    }
}

/// The processor architecture a challenge targets.
#[derive(Debug, Clone, Copy, PartialEq, Eq, Structural)]
pub enum Arch {
    X86,
    X8664,
    Java,
    Arm,
    Mips,
    RiscV,
    Other,
}

impl Arch {
    /// The catalog's wire string for this architecture.
    pub open spec fn wire(self) -> Seq<char> {
        match self {
            Arch::X86 => "x86"@,
            Arch::X8664 => "x86-64"@,
            Arch::Java => "java"@,
            Arch::Arm => "ARM"@,
            Arch::Mips => "MIPS"@,
            Arch::RiscV => "RISC-V"@,
            Arch::Other => "other"@,
        }
    }

    /// The architecture that a wire string stands for: the variant whose wire string
    /// it is, and `Other` for every other text.
    pub open spec fn of_wire(s: Seq<char>) -> Arch {
        if s == "x86"@ {
            Arch::X86
        } else if s == "x86-64"@ {
            Arch::X8664
        } else if s == "java"@ {
            Arch::Java
        } else if s == "ARM"@ {
            Arch::Arm
        } else if s == "MIPS"@ {
            Arch::Mips
        } else if s == "RISC-V"@ {
            Arch::RiscV
        } else {
            Arch::Other
        }
    }

    /// Renders the architecture as its wire string.
    pub fn to_string(&self) -> (text: String)
        ensures
            text@ == self.wire(),
    {
        match self {
            Arch::X86 => "x86".to_owned(),
            Arch::X8664 => "x86-64".to_owned(),
            Arch::Java => "java".to_owned(),
            Arch::Arm => "ARM".to_owned(),
            Arch::Mips => "MIPS".to_owned(),
            Arch::RiscV => "RISC-V".to_owned(),
            Arch::Other => "other".to_owned(),
        }
    }
}

impl<'a> From<&'a str> for Arch {
    fn from(s: &'a str) -> (parsed: Arch) {
        if same_text(s, "x86") {
            Arch::X86
        } else if same_text(s, "x86-64") {
            Arch::X8664
        } else if same_text(s, "java") {
            Arch::Java
        } else if same_text(s, "ARM") {
            Arch::Arm
        } else if same_text(s, "MIPS") {
            Arch::Mips
        } else if same_text(s, "RISC-V") {
            Arch::RiscV
        } else {
            Arch::Other
        }
    }
}

impl<'a> FromSpecImpl<&'a str> for Arch {
    open spec fn obeys_from_spec() -> bool {
        true
    }

    open spec fn from_spec(s: &'a str) -> Arch {
        Arch::of_wire(s@)
    }
}

/// The operating system a challenge runs on.
#[derive(Debug, Clone, Copy, PartialEq, Eq, Structural)]
pub enum Platform {
    Dos,
    MacOSX,
    Multiplatform,
    Unix,
    Windows,
    WindowsXP,
    Windows7,
    Android,
    Ios,
    Other,
}

impl Platform {
    /// The catalog's wire string for this platform.
    pub open spec fn wire(self) -> Seq<char> {
        match self {
            Platform::Dos => "DOS"@,
            Platform::MacOSX => "Mac OS X"@,
            Platform::Multiplatform => "Multiplatform"@,
            Platform::Unix => "Unix/linux etc."@,
            Platform::Windows => "Windows"@,
            Platform::WindowsXP => "Windows 2000/XP only"@,
            Platform::Windows7 => "Windows 7 Only"@,
            Platform::Android => "Android"@,
            Platform::Ios => "iOS"@,
            Platform::Other => "Unspecified/other"@,
        }
    }

    /// The platform that a wire string stands for: the variant whose wire string
    /// it is, and `Other` for every other text.
    pub open spec fn of_wire(s: Seq<char>) -> Platform {
        if s == "DOS"@ {
            Platform::Dos
        } else if s == "Mac OS X"@ {
            Platform::MacOSX
        } else if s == "Multiplatform"@ {
            Platform::Multiplatform
        } else if s == "Unix/linux etc."@ {
            Platform::Unix
        } else if s == "Windows"@ {
            Platform::Windows
        } else if s == "Windows 2000/XP only"@ {
            Platform::WindowsXP
        } else if s == "Windows 7 Only"@ {
            Platform::Windows7
        } else if s == "Android"@ {
            Platform::Android
        } else if s == "iOS"@ {
            Platform::Ios
        } else {
            Platform::Other
        }
    }

    /// Renders the platform as its wire string.
    pub fn to_string(&self) -> (text: String)
        ensures
            text@ == self.wire(),
    {
        match self {
            Platform::Dos => "DOS".to_owned(),
            Platform::MacOSX => "Mac OS X".to_owned(),
            Platform::Multiplatform => "Multiplatform".to_owned(),
            Platform::Unix => "Unix/linux etc.".to_owned(),
            Platform::Windows => "Windows".to_owned(),
            Platform::WindowsXP => "Windows 2000/XP only".to_owned(),
            Platform::Windows7 => "Windows 7 Only".to_owned(),
            Platform::Android => "Android".to_owned(),
            Platform::Ios => "iOS".to_owned(),
            Platform::Other => "Unspecified/other".to_owned(),
        }
    }
}

impl<'a> From<&'a str> for Platform {
    fn from(s: &'a str) -> (parsed: Platform) {
        if same_text(s, "DOS") {
            Platform::Dos
        } else if same_text(s, "Mac OS X") {
            Platform::MacOSX
        } else if same_text(s, "Multiplatform") {
            Platform::Multiplatform
        } else if same_text(s, "Unix/linux etc.") {
            Platform::Unix
        } else if same_text(s, "Windows") {
            Platform::Windows
        } else if same_text(s, "Windows 2000/XP only") {
            Platform::WindowsXP
        } else if same_text(s, "Windows 7 Only") {
            Platform::Windows7
        } else if same_text(s, "Android") {
            Platform::Android
        } else if same_text(s, "iOS") {
            Platform::Ios
        } else {
            Platform::Other
        }
    }
}

impl<'a> FromSpecImpl<&'a str> for Platform {
    open spec fn obeys_from_spec() -> bool {
        true
    }

    open spec fn from_spec(s: &'a str) -> Platform {
        Platform::of_wire(s@)
    }
}

/// Reading the wire string of a language gives that language back, whichever
/// it is: no two variants share a wire string.
pub proof fn lemma_language_round_trip(v: Language)
    ensures
        Language::of_wire(v.wire()) == v,
{
    reveal_strlit("C/C++");
    reveal_strlit("Assembler");
    reveal_strlit("Java");
    reveal_strlit("Go");
    reveal_strlit("Rust");
    reveal_strlit("WebAssembly");
    reveal_strlit("(Visual) Basic");
    reveal_strlit("Borland Delphi");
    reveal_strlit("Turbo Pascal");
    reveal_strlit(".NET");
    reveal_strlit("Unspecified/other");
    assert("C/C++"@.len() == 5);
    assert("Assembler"@.len() == 9);
    assert("Java"@.len() == 4);
    assert("Java"@[0] == 'J');
    assert("Go"@.len() == 2);
    assert("Rust"@.len() == 4);
    assert("Rust"@[0] == 'R');
    assert("WebAssembly"@.len() == 11);
    assert("(Visual) Basic"@.len() == 14);
    assert("(Visual) Basic"@[0] == '(');
    assert("Borland Delphi"@.len() == 14);
    assert("Borland Delphi"@[0] == 'B');
    assert("Turbo Pascal"@.len() == 12);
    assert(".NET"@.len() == 4);
    assert(".NET"@[0] == '.');
    assert("Unspecified/other"@.len() == 17);
}

/// A text that is the wire string of no language but `Other` reads as `Other`.
pub proof fn lemma_unknown_language_is_other(s: Seq<char>)
    requires
        forall|v: Language| v != Language::Other ==> s != #[trigger] v.wire(),
    ensures
        Language::of_wire(s) == Language::Other,
{
    assert(s != Language::Ccpp.wire());
    assert(s != Language::Assembler.wire());
    assert(s != Language::Java.wire());
    assert(s != Language::Go.wire());
    assert(s != Language::Rust.wire());
    assert(s != Language::Wasm.wire());
    assert(s != Language::Basic.wire());
    assert(s != Language::Borland.wire());
    assert(s != Language::Pascal.wire());
    assert(s != Language::Dotnet.wire());
}

/// Reading the wire string of a architecture gives that architecture back, whichever
/// it is: no two variants share a wire string.
pub proof fn lemma_arch_round_trip(v: Arch)
    ensures
        Arch::of_wire(v.wire()) == v,
{
    reveal_strlit("x86");
    reveal_strlit("x86-64");
    reveal_strlit("java");
    reveal_strlit("ARM");
    reveal_strlit("MIPS");
    reveal_strlit("RISC-V");
    reveal_strlit("other");
    assert("x86"@.len() == 3);
    assert("x86"@[0] == 'x');
    assert("x86-64"@.len() == 6);
    assert("x86-64"@[0] == 'x');
    assert("java"@.len() == 4);
    assert("java"@[0] == 'j');
    assert("ARM"@.len() == 3);
    assert("ARM"@[0] == 'A');
    assert("MIPS"@.len() == 4);
    assert("MIPS"@[0] == 'M');
    assert("RISC-V"@.len() == 6);
    assert("RISC-V"@[0] == 'R');
    assert("other"@.len() == 5);
}

/// A text that is the wire string of no architecture but `Other` reads as `Other`.
pub proof fn lemma_unknown_arch_is_other(s: Seq<char>)
    requires
        forall|v: Arch| v != Arch::Other ==> s != #[trigger] v.wire(),
    ensures
        Arch::of_wire(s) == Arch::Other,
{
    assert(s != Arch::X86.wire());
    assert(s != Arch::X8664.wire());
    assert(s != Arch::Java.wire());
    assert(s != Arch::Arm.wire());
    assert(s != Arch::Mips.wire());
    assert(s != Arch::RiscV.wire());
}

/// Reading the wire string of a platform gives that platform back, whichever
/// it is: no two variants share a wire string.
pub proof fn lemma_platform_round_trip(v: Platform)
    ensures
        Platform::of_wire(v.wire()) == v,
{
    reveal_strlit("DOS");
    reveal_strlit("Mac OS X");
    reveal_strlit("Multiplatform");
    reveal_strlit("Unix/linux etc.");
    reveal_strlit("Windows");
    reveal_strlit("Windows 2000/XP only");
    reveal_strlit("Windows 7 Only");
    reveal_strlit("Android");
    reveal_strlit("iOS");
    reveal_strlit("Unspecified/other");
    assert("DOS"@.len() == 3);
    assert("DOS"@[0] == 'D');
    assert("Mac OS X"@.len() == 8);
    assert("Multiplatform"@.len() == 13);
    assert("Unix/linux etc."@.len() == 15);
    assert("Windows"@.len() == 7);
    assert("Windows"@[0] == 'W');
    assert("Windows 2000/XP only"@.len() == 20);
    assert("Windows 7 Only"@.len() == 14);
    assert("Android"@.len() == 7);
    assert("Android"@[0] == 'A');
    assert("iOS"@.len() == 3);
    assert("iOS"@[0] == 'i');
    assert("Unspecified/other"@.len() == 17);
}

/// A text that is the wire string of no platform but `Other` reads as `Other`.
pub proof fn lemma_unknown_platform_is_other(s: Seq<char>)
    requires
        forall|v: Platform| v != Platform::Other ==> s != #[trigger] v.wire(),
    ensures
        Platform::of_wire(s) == Platform::Other,
{
    assert(s != Platform::Dos.wire());
    assert(s != Platform::MacOSX.wire());
    assert(s != Platform::Multiplatform.wire());
    assert(s != Platform::Unix.wire());
    assert(s != Platform::Windows.wire());
    assert(s != Platform::WindowsXP.wire());
    assert(s != Platform::Windows7.wire());
    assert(s != Platform::Android.wire());
    assert(s != Platform::Ios.wire());
}

} // verus!
