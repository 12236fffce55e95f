//! The languages that are told apart: the name each is reported under, the
//! file names and first lines each is known by, and how each writes comments.

use crate::lines::{lemma_line_end_is, line_end, NEWLINE};
use crate::syntax::CommentSyntax;
use crate::text::{contains, is_utf8, lowercase, lowercase_of, occurs_in, str_eq, text_is};
use vstd::prelude::*;
use vstd::string::*;
use vstd::utf8::*;

verus! {

/// A language, or `Unrecognized` for a file of none that is known.
#[derive(Debug, PartialEq, Eq, Structural, PartialOrd, Ord, Hash, Copy, Clone)]
pub enum Lang {
    ActionScript,
    Ada,
    Agda,
    AmbientTalk,
    Asp,
    AspNet,
    Assembly,
    Autoconf,
    Awk,
    Batch,
    BourneShell,
    C,
    CCppHeader,
    CMake,
    CSharp,
    CShell,
    Clojure,
    CoffeeScript,
    ColdFusion,
    ColdFusionScript,
    Coq,
    Cpp,
    Css,
    CUDA,
    CUDAHeader,
    D,
    Dart,
    DeviceTree,
    Docker,
    Elixir,
    Elm,
    Erlang,
    Forth,
    FortranLegacy,
    FortranModern,
    FSharp,
    Gherkin,
    Glsl,
    Go,
    Groovy,
    Handlebars,
    Haskell,
    Hex,
    Html,
    INI,
    Idris,
    IntelHex,
    Isabelle,
    Jai,
    Java,
    JavaScript,
    Json,
    Jsx,
    Julia,
    Kotlin,
    Less,
    LinkerScript,
    Lean,
    Lisp,
    Lua,
    Make,
    Makefile,
    Markdown,
    Mustache,
    Nim,
    Nix,
    OCaml,
    ObjectiveC,
    ObjectiveCpp,
    OpenCl,
    Oz,
    Pascal,
    Perl,
    Php,
    Polly,
    PowerShell,
    Prolog,
    Protobuf,
    Puppet,
    PureScript,
    Pyret,
    Python,
    Qcl,
    Qml,
    R,
    Razor,
    Reason,
    ReStructuredText,
    Ruby,
    RubyHtml,
    Rust,
    SaltStack,
    Sass,
    Scala,
    Sml,
    Sql,
    Stylus,
    Swift,
    Tcl,
    Terraform,
    Tex,
    Text,
    Toml,
    TypeScript,
    Tsx,
    UnrealScript,
    VimScript,
    Vue,
    Wolfram,
    XML,
    Yacc,
    Yaml,
    Zig,
    Zsh,
    Haxe,
    Unrecognized,
}

/// The name a language is reported under.
pub open spec fn lang_name(lang: Lang) -> Seq<char> {
    match lang {
        Lang::ActionScript => "ActionScript"@,
        Lang::Ada => "Ada"@,
        Lang::Agda => "Agda"@,
        Lang::AmbientTalk => "AmbientTalk"@,
        Lang::Asp => "ASP"@,
        Lang::AspNet => "ASP.NET"@,
        Lang::Assembly => "Assembly"@,
        Lang::Autoconf => "Autoconf"@,
        Lang::Awk => "Awk"@,
        Lang::Batch => "Batch"@,
        Lang::BourneShell => "Bourne Shell"@,
        Lang::C => "C"@,
        Lang::CCppHeader => "C/C++ Header"@,
        Lang::CMake => "CMake"@,
        Lang::CSharp => "C#"@,
        Lang::CShell => "C Shell"@,
        Lang::Clojure => "Clojure"@,
        Lang::CoffeeScript => "CoffeeScript"@,
        Lang::ColdFusion => "ColdFusion"@,
        Lang::ColdFusionScript => "ColdFusionScript"@,
        Lang::Coq => "Coq"@,
        Lang::Cpp => "C++"@,
        Lang::Css => "CSS"@,
        Lang::CUDA => "CUDA"@,
        Lang::CUDAHeader => "CUDA Header"@,
        Lang::D => "D"@,
        Lang::Dart => "Dart"@,
        Lang::DeviceTree => "DeviceTree"@,
        Lang::Docker => "Docker"@,
        Lang::Elixir => "Elixir"@,
        Lang::Elm => "Elm"@,
        Lang::Erlang => "Erlang"@,
        Lang::Forth => "Forth"@,
        Lang::FortranLegacy => "FORTRAN Legacy"@,
        Lang::FortranModern => "FORTRAN Modern"@,
        Lang::FSharp => "F#"@,
        Lang::Gherkin => "Gherkin"@,
        Lang::Glsl => "GLSL"@,
        Lang::Go => "Go"@,
        Lang::Groovy => "Groovy"@,
        Lang::Handlebars => "Handlebars"@,
        Lang::Haskell => "Haskell"@,
        Lang::Hex => "Hex"@,
        Lang::Html => "HTML"@,
        Lang::INI => "INI"@,
        Lang::Idris => "Idris"@,
        Lang::IntelHex => "Intel Hex"@,
        Lang::Isabelle => "Isabelle"@,
        Lang::Jai => "Jai"@,
        Lang::Java => "Java"@,
        Lang::JavaScript => "JavaScript"@,
        Lang::Json => "JSON"@,
        Lang::Jsx => "Jsx"@,
        Lang::Julia => "Julia"@,
        Lang::Kotlin => "Kotlin"@,
        Lang::Less => "Less"@,
        Lang::LinkerScript => "LinkerScript"@,
        Lang::Lean => "Lean"@,
        Lang::Lisp => "Lisp"@,
        Lang::Lua => "Lua"@,
        Lang::Make => "Make"@,
        Lang::Makefile => "Makefile"@,
        Lang::Markdown => "Markdown"@,
        Lang::Mustache => "Mustache"@,
        Lang::Nim => "Nim"@,
        Lang::Nix => "Nix"@,
        Lang::OCaml => "OCaml"@,
        Lang::ObjectiveC => "Objective-C"@,
        Lang::ObjectiveCpp => "Objective-C++"@,
        Lang::OpenCl => "OpenCL"@,
        Lang::Oz => "Oz"@,
        Lang::Pascal => "Pascal"@,
        Lang::Perl => "Perl"@,
        Lang::Php => "PHP"@,
        Lang::Polly => "Polly"@,
        Lang::PowerShell => "PowerShell"@,
        Lang::Prolog => "Prolog"@,
        Lang::Protobuf => "Protobuf"@,
        Lang::Puppet => "Puppet"@,
        Lang::PureScript => "PureScript"@,
        Lang::Pyret => "Pyret"@,
        Lang::Python => "Python"@,
        Lang::Qcl => "Qcl"@,
        Lang::Qml => "Qml"@,
        Lang::R => "R"@,
        Lang::Razor => "Razor"@,
        Lang::Reason => "Reason"@,
        Lang::ReStructuredText => "reStructuredText"@,
        Lang::Ruby => "Ruby"@,
        Lang::RubyHtml => "RubyHtml"@,
        Lang::Rust => "Rust"@,
        Lang::SaltStack => "SaltStack"@,
        Lang::Sass => "Sass"@,
        Lang::Scala => "Scala"@,
        Lang::Sml => "SML"@,
        Lang::Sql => "SQL"@,
        Lang::Stylus => "Stylus"@,
        Lang::Swift => "Swift"@,
        Lang::Tcl => "Tcl"@,
        Lang::Terraform => "Terraform"@,
        Lang::Tex => "TeX"@,
        Lang::Text => "Plain Text"@,
        Lang::Toml => "Toml"@,
        Lang::TypeScript => "TypeScript"@,
        Lang::Tsx => "Typescript JSX"@,
        Lang::UnrealScript => "UnrealScript"@,
        Lang::VimScript => "VimL"@,
        Lang::Vue => "Vue"@,
        Lang::Wolfram => "Wolfram"@,
        Lang::XML => "XML"@,
        Lang::Yacc => "Yacc"@,
        Lang::Yaml => "YAML"@,
        Lang::Zig => "Zig"@,
        Lang::Zsh => "Z Shell"@,
        Lang::Haxe => "Haxe"@,
        Lang::Unrecognized => "Unrecognized"@,
    }
}

impl Lang {
    /// The name the language is reported under.
    pub fn to_s(&self) -> (name: &'static str)
        ensures
            name@ == lang_name(*self),
    {
        match *self {
            Lang::ActionScript => "ActionScript",
            Lang::Ada => "Ada",
            Lang::Agda => "Agda",
            Lang::AmbientTalk => "AmbientTalk",
            Lang::Asp => "ASP",
            Lang::AspNet => "ASP.NET",
            Lang::Assembly => "Assembly",
            Lang::Autoconf => "Autoconf",
            Lang::Awk => "Awk",
            Lang::Batch => "Batch",
            Lang::BourneShell => "Bourne Shell",
            Lang::C => "C",
            Lang::CCppHeader => "C/C++ Header",
            Lang::CMake => "CMake",
            Lang::CSharp => "C#",
            Lang::CShell => "C Shell",
            Lang::Clojure => "Clojure",
            Lang::CoffeeScript => "CoffeeScript",
            Lang::ColdFusion => "ColdFusion",
            Lang::ColdFusionScript => "ColdFusionScript",
            Lang::Coq => "Coq",
            Lang::Cpp => "C++",
            Lang::Css => "CSS",
            Lang::CUDA => "CUDA",
            Lang::CUDAHeader => "CUDA Header",
            Lang::D => "D",
            Lang::Dart => "Dart",
            Lang::DeviceTree => "DeviceTree",
            Lang::Docker => "Docker",
            Lang::Elixir => "Elixir",
            Lang::Elm => "Elm",
            Lang::Erlang => "Erlang",
            Lang::Forth => "Forth",
            Lang::FortranLegacy => "FORTRAN Legacy",
            Lang::FortranModern => "FORTRAN Modern",
            Lang::FSharp => "F#",
            Lang::Gherkin => "Gherkin",
            Lang::Glsl => "GLSL",
            Lang::Go => "Go",
            Lang::Groovy => "Groovy",
            Lang::Handlebars => "Handlebars",
            Lang::Haskell => "Haskell",
            Lang::Hex => "Hex",
            Lang::Html => "HTML",
            Lang::INI => "INI",
            Lang::Idris => "Idris",
            Lang::IntelHex => "Intel Hex",
            Lang::Isabelle => "Isabelle",
            Lang::Jai => "Jai",
            Lang::Java => "Java",
            Lang::JavaScript => "JavaScript",
            Lang::Json => "JSON",
            Lang::Jsx => "Jsx",
            Lang::Julia => "Julia",
            Lang::Kotlin => "Kotlin",
            Lang::Less => "Less",
            Lang::LinkerScript => "LinkerScript",
            Lang::Lean => "Lean",
            Lang::Lisp => "Lisp",
            Lang::Lua => "Lua",
            Lang::Make => "Make",
            Lang::Makefile => "Makefile",
            Lang::Markdown => "Markdown",
            Lang::Mustache => "Mustache",
            Lang::Nim => "Nim",
            Lang::Nix => "Nix",
            Lang::OCaml => "OCaml",
            Lang::ObjectiveC => "Objective-C",
            Lang::ObjectiveCpp => "Objective-C++",
            Lang::OpenCl => "OpenCL",
            Lang::Oz => "Oz",
            Lang::Pascal => "Pascal",
            Lang::Perl => "Perl",
            Lang::Php => "PHP",
            Lang::Polly => "Polly",
            Lang::PowerShell => "PowerShell",
            Lang::Prolog => "Prolog",
            Lang::Protobuf => "Protobuf",
            Lang::Puppet => "Puppet",
            Lang::PureScript => "PureScript",
            Lang::Pyret => "Pyret",
            Lang::Python => "Python",
            Lang::Qcl => "Qcl",
            Lang::Qml => "Qml",
            Lang::R => "R",
            Lang::Razor => "Razor",
            Lang::Reason => "Reason",
            Lang::ReStructuredText => "reStructuredText",
            Lang::Ruby => "Ruby",
            Lang::RubyHtml => "RubyHtml",
            Lang::Rust => "Rust",
            Lang::SaltStack => "SaltStack",
            Lang::Sass => "Sass",
            Lang::Scala => "Scala",
            Lang::Sml => "SML",
            Lang::Sql => "SQL",
            Lang::Stylus => "Stylus",
            Lang::Swift => "Swift",
            Lang::Tcl => "Tcl",
            Lang::Terraform => "Terraform",
            Lang::Tex => "TeX",
            Lang::Text => "Plain Text",
            Lang::Toml => "Toml",
            Lang::TypeScript => "TypeScript",
            Lang::Tsx => "Typescript JSX",
            Lang::UnrealScript => "UnrealScript",
            Lang::VimScript => "VimL",
            Lang::Vue => "Vue",
            Lang::Wolfram => "Wolfram",
            Lang::XML => "XML",
            Lang::Yacc => "Yacc",
            Lang::Yaml => "YAML",
            Lang::Zig => "Zig",
            Lang::Zsh => "Z Shell",
            Lang::Haxe => "Haxe",
            Lang::Unrecognized => "Unrecognized",
        }
    }
}

/// The language that goes with a file extension, or with a file name that
/// stands for one. Both are in lower case.
pub open spec fn ext_lang(ext: Seq<char>) -> Lang {
    if ext == "4th"@ || ext == "forth"@ || ext == "fr"@ || ext == "frt"@ || ext == "fth"@ || ext == "f83"@ || ext == "fb"@ || ext == "fpm"@ || ext == "e4"@ || ext == "rx"@ || ext == "ft"@ {
        Lang::Forth
    } else if ext == "ada"@ || ext == "adb"@ || ext == "ads"@ || ext == "pad"@ {
        Lang::Ada
    } else if ext == "agda"@ {
        Lang::Agda
    } else if ext == "as"@ {
        Lang::ActionScript
    } else if ext == "at"@ {
        Lang::AmbientTalk
    } else if ext == "awk"@ {
        Lang::Awk
    } else if ext == "bat"@ || ext == "btm"@ || ext == "cmd"@ {
        Lang::Batch
    } else if ext == "c"@ || ext == "ec"@ || ext == "pgc"@ {
        Lang::C
    } else if ext == "cc"@ || ext == "cpp"@ || ext == "cxx"@ || ext == "c++"@ || ext == "pcc"@ {
        Lang::Cpp
    } else if ext == "cfc"@ {
        Lang::ColdFusionScript
    } else if ext == "cmake"@ {
        Lang::CMake
    } else if ext == "cl"@ {
        Lang::OpenCl
    } else if ext == "coffee"@ {
        Lang::CoffeeScript
    } else if ext == "cs"@ {
        Lang::CSharp
    } else if ext == "csh"@ {
        Lang::CShell
    } else if ext == "css"@ || ext == "pcss"@ || ext == "sss"@ || ext == "postcss"@ {
        Lang::Css
    } else if ext == "cu"@ {
        Lang::CUDA
    } else if ext == "cuh"@ {
        Lang::CUDAHeader
    } else if ext == "d"@ {
        Lang::D
    } else if ext == "dart"@ {
        Lang::Dart
    } else if ext == "dts"@ || ext == "dtsi"@ {
        Lang::DeviceTree
    } else if ext == "docker"@ {
        Lang::Docker
    } else if ext == "el"@ || ext == "lisp"@ || ext == "lsp"@ || ext == "scm"@ || ext == "ss"@ || ext == "rkt"@ {
        Lang::Lisp
    } else if ext == "ex"@ || ext == "exs"@ {
        Lang::Elixir
    } else if ext == "elm"@ {
        Lang::Elm
    } else if ext == "erl"@ || ext == "hrl"@ {
        Lang::Erlang
    } else if ext == "feature"@ {
        Lang::Gherkin
    } else if ext == "fs"@ || ext == "fsx"@ {
        Lang::FSharp
    } else if ext == "vert"@ || ext == "tesc"@ || ext == "tese"@ || ext == "geom"@ || ext == "frag"@ || ext == "comp"@ {
        Lang::Glsl
    } else if ext == "go"@ {
        Lang::Go
    } else if ext == "groovy"@ {
        Lang::Groovy
    } else if ext == "h"@ || ext == "hh"@ || ext == "hpp"@ || ext == "hxx"@ {
        Lang::CCppHeader
    } else if ext == "hbs"@ || ext == "handlebars"@ {
        Lang::Handlebars
    } else if ext == "hs"@ {
        Lang::Haskell
    } else if ext == "html"@ {
        Lang::Html
    } else if ext == "idr"@ || ext == "lidr"@ {
        Lang::Idris
    } else if ext == "ini"@ {
        Lang::INI
    } else if ext == "jai"@ {
        Lang::Jai
    } else if ext == "java"@ {
        Lang::Java
    } else if ext == "jl"@ {
        Lang::Julia
    } else if ext == "js"@ || ext == "mjs"@ {
        Lang::JavaScript
    } else if ext == "jsx"@ {
        Lang::Jsx
    } else if ext == "kt"@ || ext == "kts"@ {
        Lang::Kotlin
    } else if ext == "lds"@ {
        Lang::LinkerScript
    } else if ext == "lean"@ || ext == "hlean"@ {
        Lang::Lean
    } else if ext == "less"@ {
        Lang::Less
    } else if ext == "lua"@ {
        Lang::Lua
    } else if ext == "m"@ {
        Lang::ObjectiveC
    } else if ext == "ml"@ || ext == "mli"@ {
        Lang::OCaml
    } else if ext == "nb"@ || ext == "wl"@ {
        Lang::Wolfram
    } else if ext == "sh"@ {
        Lang::BourneShell
    } else if ext == "asa"@ || ext == "asp"@ {
        Lang::Asp
    } else if ext == "asax"@ || ext == "ascx"@ || ext == "asmx"@ || ext == "aspx"@ || ext == "master"@ || ext == "sitemap"@ || ext == "webinfo"@ {
        Lang::AspNet
    } else if ext == "in"@ {
        Lang::Autoconf
    } else if ext == "clj"@ || ext == "cljs"@ || ext == "cljc"@ {
        Lang::Clojure
    } else if ext == "f"@ || ext == "for"@ || ext == "ftn"@ || ext == "f77"@ || ext == "pfo"@ {
        Lang::FortranLegacy
    } else if ext == "f03"@ || ext == "f08"@ || ext == "f90"@ || ext == "f95"@ {
        Lang::FortranModern
    } else if ext == "makefile"@ || ext == "mk"@ {
        Lang::Makefile
    } else if ext == "mm"@ {
        Lang::ObjectiveCpp
    } else if ext == "nim"@ {
        Lang::Nim
    } else if ext == "nix"@ {
        Lang::Nix
    } else if ext == "php"@ {
        Lang::Php
    } else if ext == "pl"@ || ext == "pm"@ {
        Lang::Perl
    } else if ext == "pp"@ {
        Lang::Puppet
    } else if ext == "qcl"@ {
        Lang::Qcl
    } else if ext == "qml"@ {
        Lang::Qml
    } else if ext == "cshtml"@ {
        Lang::Razor
    } else if ext == "mustache"@ {
        Lang::Mustache
    } else if ext == "oz"@ {
        Lang::Oz
    } else if ext == "p"@ || ext == "pro"@ {
        Lang::Prolog
    } else if ext == "pas"@ {
        Lang::Pascal
    } else if ext == "hex"@ {
        Lang::Hex
    } else if ext == "ihex"@ {
        Lang::IntelHex
    } else if ext == "json"@ {
        Lang::Json
    } else if ext == "markdown"@ || ext == "md"@ {
        Lang::Markdown
    } else if ext == "rst"@ {
        Lang::ReStructuredText
    } else if ext == "text"@ || ext == "txt"@ {
        Lang::Text
    } else if ext == "polly"@ {
        Lang::Polly
    } else if ext == "ps1"@ || ext == "psd1"@ || ext == "psm1"@ {
        Lang::PowerShell
    } else if ext == "proto"@ {
        Lang::Protobuf
    } else if ext == "purs"@ {
        Lang::PureScript
    } else if ext == "arr"@ {
        Lang::Pyret
    } else if ext == "py"@ {
        Lang::Python
    } else if ext == "r"@ {
        Lang::R
    } else if ext == "rake"@ || ext == "rb"@ {
        Lang::Ruby
    } else if ext == "re"@ || ext == "rei"@ {
        Lang::Reason
    } else if ext == "rhtml"@ || ext == "erb"@ {
        Lang::RubyHtml
    } else if ext == "rs"@ {
        Lang::Rust
    } else if ext == "s"@ || ext == "asm"@ {
        Lang::Assembly
    } else if ext == "sass"@ || ext == "scss"@ {
        Lang::Sass
    } else if ext == "sc"@ || ext == "scala"@ {
        Lang::Scala
    } else if ext == "sls"@ {
        Lang::SaltStack
    } else if ext == "sml"@ {
        Lang::Sml
    } else if ext == "sql"@ {
        Lang::Sql
    } else if ext == "styl"@ {
        Lang::Stylus
    } else if ext == "swift"@ {
        Lang::Swift
    } else if ext == "tcl"@ {
        Lang::Tcl
    } else if ext == "tf"@ {
        Lang::Terraform
    } else if ext == "tex"@ || ext == "sty"@ {
        Lang::Tex
    } else if ext == "toml"@ {
        Lang::Toml
    } else if ext == "ts"@ {
        Lang::TypeScript
    } else if ext == "tsx"@ {
        Lang::Tsx
    } else if ext == "thy"@ {
        Lang::Isabelle
    } else if ext == "uc"@ || ext == "uci"@ || ext == "upkg"@ {
        Lang::UnrealScript
    } else if ext == "v"@ {
        Lang::Coq
    } else if ext == "vim"@ {
        Lang::VimScript
    } else if ext == "vue"@ {
        Lang::Vue
    } else if ext == "xml"@ {
        Lang::XML
    } else if ext == "yaml"@ || ext == "yml"@ {
        Lang::Yaml
    } else if ext == "y"@ {
        Lang::Yacc
    } else if ext == "zig"@ {
        Lang::Zig
    } else if ext == "zsh"@ {
        Lang::Zsh
    } else if ext == "hx"@ {
        Lang::Haxe
    } else {
        Lang::Unrecognized
    }
}

/// The language that goes with a file extension in lower case.
pub fn lang_of_ext(ext: &str) -> (lang: Lang)
    ensures
        lang == ext_lang(ext@),
{
    if str_eq(ext, "4th") || str_eq(ext, "forth") || str_eq(ext, "fr") || str_eq(ext, "frt") || str_eq(ext, "fth") || str_eq(ext, "f83") || str_eq(ext, "fb") || str_eq(ext, "fpm") || str_eq(ext, "e4") || str_eq(ext, "rx") || str_eq(ext, "ft") {
        Lang::Forth
    } else if str_eq(ext, "ada") || str_eq(ext, "adb") || str_eq(ext, "ads") || str_eq(ext, "pad") {
        Lang::Ada
    } else if str_eq(ext, "agda") {
        Lang::Agda
    } else if str_eq(ext, "as") {
        Lang::ActionScript
    } else if str_eq(ext, "at") {
        Lang::AmbientTalk
    } else if str_eq(ext, "awk") {
        Lang::Awk
    } else if str_eq(ext, "bat") || str_eq(ext, "btm") || str_eq(ext, "cmd") {
        Lang::Batch
    } else if str_eq(ext, "c") || str_eq(ext, "ec") || str_eq(ext, "pgc") {
        Lang::C
    } else if str_eq(ext, "cc") || str_eq(ext, "cpp") || str_eq(ext, "cxx") || str_eq(ext, "c++") || str_eq(ext, "pcc") {
        Lang::Cpp
    } else if str_eq(ext, "cfc") {
        Lang::ColdFusionScript
    } else if str_eq(ext, "cmake") {
        Lang::CMake
    } else if str_eq(ext, "cl") {
        Lang::OpenCl
    } else if str_eq(ext, "coffee") {
        Lang::CoffeeScript
    } else if str_eq(ext, "cs") {
        Lang::CSharp
    } else if str_eq(ext, "csh") {
        Lang::CShell
    } else if str_eq(ext, "css") || str_eq(ext, "pcss") || str_eq(ext, "sss") || str_eq(ext, "postcss") {
        Lang::Css
    } else if str_eq(ext, "cu") {
        Lang::CUDA
    } else if str_eq(ext, "cuh") {
        Lang::CUDAHeader
    } else if str_eq(ext, "d") {
        Lang::D
    } else if str_eq(ext, "dart") {
        Lang::Dart
    } else if str_eq(ext, "dts") || str_eq(ext, "dtsi") {
        Lang::DeviceTree
    } else if str_eq(ext, "docker") {
        Lang::Docker
    } else if str_eq(ext, "el") || str_eq(ext, "lisp") || str_eq(ext, "lsp") || str_eq(ext, "scm") || str_eq(ext, "ss") || str_eq(ext, "rkt") {
        Lang::Lisp
    } else if str_eq(ext, "ex") || str_eq(ext, "exs") {
        Lang::Elixir
    } else if str_eq(ext, "elm") {
        Lang::Elm
    } else if str_eq(ext, "erl") || str_eq(ext, "hrl") {
        Lang::Erlang
    } else if str_eq(ext, "feature") {
        Lang::Gherkin
    } else if str_eq(ext, "fs") || str_eq(ext, "fsx") {
        Lang::FSharp
    } else if str_eq(ext, "vert") || str_eq(ext, "tesc") || str_eq(ext, "tese") || str_eq(ext, "geom") || str_eq(ext, "frag") || str_eq(ext, "comp") {
        Lang::Glsl
    } else if str_eq(ext, "go") {
        Lang::Go
    } else if str_eq(ext, "groovy") {
        Lang::Groovy
    } else if str_eq(ext, "h") || str_eq(ext, "hh") || str_eq(ext, "hpp") || str_eq(ext, "hxx") {
        Lang::CCppHeader
    } else if str_eq(ext, "hbs") || str_eq(ext, "handlebars") {
        Lang::Handlebars
    } else if str_eq(ext, "hs") {
        Lang::Haskell
    } else if str_eq(ext, "html") {
        Lang::Html
    } else if str_eq(ext, "idr") || str_eq(ext, "lidr") {
        Lang::Idris
    } else if str_eq(ext, "ini") {
        Lang::INI
    } else if str_eq(ext, "jai") {
        Lang::Jai
    } else if str_eq(ext, "java") {
        Lang::Java
    } else if str_eq(ext, "jl") {
        Lang::Julia
    } else if str_eq(ext, "js") || str_eq(ext, "mjs") {
        Lang::JavaScript
    } else if str_eq(ext, "jsx") {
        Lang::Jsx
    } else if str_eq(ext, "kt") || str_eq(ext, "kts") {
        Lang::Kotlin
    } else if str_eq(ext, "lds") {
        Lang::LinkerScript
    } else if str_eq(ext, "lean") || str_eq(ext, "hlean") {
        Lang::Lean
    } else if str_eq(ext, "less") {
        Lang::Less
    } else if str_eq(ext, "lua") {
        Lang::Lua
    } else if str_eq(ext, "m") {
        Lang::ObjectiveC
    } else if str_eq(ext, "ml") || str_eq(ext, "mli") {
        Lang::OCaml
    } else if str_eq(ext, "nb") || str_eq(ext, "wl") {
        Lang::Wolfram
    } else if str_eq(ext, "sh") {
        Lang::BourneShell
    } else if str_eq(ext, "asa") || str_eq(ext, "asp") {
        Lang::Asp
    } else if str_eq(ext, "asax") || str_eq(ext, "ascx") || str_eq(ext, "asmx") || str_eq(ext, "aspx") || str_eq(ext, "master") || str_eq(ext, "sitemap") || str_eq(ext, "webinfo") {
        Lang::AspNet
    } else if str_eq(ext, "in") {
        Lang::Autoconf
    } else if str_eq(ext, "clj") || str_eq(ext, "cljs") || str_eq(ext, "cljc") {
        Lang::Clojure
    } else if str_eq(ext, "f") || str_eq(ext, "for") || str_eq(ext, "ftn") || str_eq(ext, "f77") || str_eq(ext, "pfo") {
        Lang::FortranLegacy
    } else if str_eq(ext, "f03") || str_eq(ext, "f08") || str_eq(ext, "f90") || str_eq(ext, "f95") {
        Lang::FortranModern
    } else if str_eq(ext, "makefile") || str_eq(ext, "mk") {
        Lang::Makefile
    } else if str_eq(ext, "mm") {
        Lang::ObjectiveCpp
    } else if str_eq(ext, "nim") {
        Lang::Nim
    } else if str_eq(ext, "nix") {
        Lang::Nix
    } else if str_eq(ext, "php") {
        Lang::Php
    } else if str_eq(ext, "pl") || str_eq(ext, "pm") {
        Lang::Perl
    } else if str_eq(ext, "pp") {
        Lang::Puppet
    } else if str_eq(ext, "qcl") {
        Lang::Qcl
    } else if str_eq(ext, "qml") {
        Lang::Qml
    } else if str_eq(ext, "cshtml") {
        Lang::Razor
    } else if str_eq(ext, "mustache") {
        Lang::Mustache
    } else if str_eq(ext, "oz") {
        Lang::Oz
    } else if str_eq(ext, "p") || str_eq(ext, "pro") {
        Lang::Prolog
    } else if str_eq(ext, "pas") {
        Lang::Pascal
    } else if str_eq(ext, "hex") {
        Lang::Hex
    } else if str_eq(ext, "ihex") {
        Lang::IntelHex
    } else if str_eq(ext, "json") {
        Lang::Json
    } else if str_eq(ext, "markdown") || str_eq(ext, "md") {
        Lang::Markdown
    } else if str_eq(ext, "rst") {
        Lang::ReStructuredText
    } else if str_eq(ext, "text") || str_eq(ext, "txt") {
        Lang::Text
    } else if str_eq(ext, "polly") {
        Lang::Polly
    } else if str_eq(ext, "ps1") || str_eq(ext, "psd1") || str_eq(ext, "psm1") {
        Lang::PowerShell
    } else if str_eq(ext, "proto") {
        Lang::Protobuf
    } else if str_eq(ext, "purs") {
        Lang::PureScript
    } else if str_eq(ext, "arr") {
        Lang::Pyret
    } else if str_eq(ext, "py") {
        Lang::Python
    } else if str_eq(ext, "r") {
        Lang::R
    } else if str_eq(ext, "rake") || str_eq(ext, "rb") {
        Lang::Ruby
    } else if str_eq(ext, "re") || str_eq(ext, "rei") {
        Lang::Reason
    } else if str_eq(ext, "rhtml") || str_eq(ext, "erb") {
        Lang::RubyHtml
    } else if str_eq(ext, "rs") {
        Lang::Rust
    } else if str_eq(ext, "s") || str_eq(ext, "asm") {
        Lang::Assembly
    } else if str_eq(ext, "sass") || str_eq(ext, "scss") {
        Lang::Sass
    } else if str_eq(ext, "sc") || str_eq(ext, "scala") {
        Lang::Scala
    } else if str_eq(ext, "sls") {
        Lang::SaltStack
    } else if str_eq(ext, "sml") {
        Lang::Sml
    } else if str_eq(ext, "sql") {
        Lang::Sql
    } else if str_eq(ext, "styl") {
        Lang::Stylus
    } else if str_eq(ext, "swift") {
        Lang::Swift
    } else if str_eq(ext, "tcl") {
        Lang::Tcl
    } else if str_eq(ext, "tf") {
        Lang::Terraform
    } else if str_eq(ext, "tex") || str_eq(ext, "sty") {
        Lang::Tex
    } else if str_eq(ext, "toml") {
        Lang::Toml
    } else if str_eq(ext, "ts") {
        Lang::TypeScript
    } else if str_eq(ext, "tsx") {
        Lang::Tsx
    } else if str_eq(ext, "thy") {
        Lang::Isabelle
    } else if str_eq(ext, "uc") || str_eq(ext, "uci") || str_eq(ext, "upkg") {
        Lang::UnrealScript
    } else if str_eq(ext, "v") {
        Lang::Coq
    } else if str_eq(ext, "vim") {
        Lang::VimScript
    } else if str_eq(ext, "vue") {
        Lang::Vue
    } else if str_eq(ext, "xml") {
        Lang::XML
    } else if str_eq(ext, "yaml") || str_eq(ext, "yml") {
        Lang::Yaml
    } else if str_eq(ext, "y") {
        Lang::Yacc
    } else if str_eq(ext, "zig") {
        Lang::Zig
    } else if str_eq(ext, "zsh") {
        Lang::Zsh
    } else if str_eq(ext, "hx") {
        Lang::Haxe
    } else {
        Lang::Unrecognized
    }
}

/// The extension that a script's first line stands for.
pub open spec fn shebang_ext(line: Seq<char>) -> Option<Seq<char>> {
    if line == "#!python"@ || line == "#!python2"@ || line == "#!python3"@ || line == "#!/bin/python"@ || line == "#!/bin/python2"@ || line == "#!/bin/python3"@ || line == "#!/usr/bin/env python"@ || line == "#!/usr/bin/env python2"@ || line == "#!/usr/bin/env python3"@ {
        Some("py"@)
    } else if line == "#!/usr/bin/env bash"@ || line == "#!/usr/bin/env sh"@ || line == "#!/bin/bash"@ || line == "#!/bin/sh"@ {
        Some("sh"@)
    } else if line == "#!/usr/bin/env perl"@ || line == "#!/usr/bin/env perl6"@ || line == "#!/bin/perl"@ || line == "#!/bin/perl6"@ || line == "#!/usr/bin/perl"@ {
        Some("pl"@)
    } else if line == "#!/usr/bin/env stack"@ || line == "#!/usr/bin/env runhaskell"@ {
        Some("hs"@)
    } else if line == "#!/usr/bin/csh"@ {
        Some("csh"@)
    } else if line == "#!/usr/bin/env node"@ {
        Some("js"@)
    } else if line == "#!/usr/bin/ruby"@ {
        Some("rb"@)
    } else if line == "#!/usr/bin/env ruby"@ {
        Some("rb"@)
    } else {
        None
    }
}

/// The extension that a script's first line stands for.
pub fn ext_of_shebang(line: &[u8]) -> (ext: Option<&'static str>)
    requires
        valid_utf8(line@),
    ensures
        match ext {
            Some(e) => shebang_ext(decode_utf8(line@)) == Some(e@),
            None => shebang_ext(decode_utf8(line@)) is None,
        },
{
    if text_is(line, "#!python") || text_is(line, "#!python2") || text_is(line, "#!python3") || text_is(line, "#!/bin/python") || text_is(line, "#!/bin/python2") || text_is(line, "#!/bin/python3") || text_is(line, "#!/usr/bin/env python") || text_is(line, "#!/usr/bin/env python2") || text_is(line, "#!/usr/bin/env python3") {
        Some("py")
    } else if text_is(line, "#!/usr/bin/env bash") || text_is(line, "#!/usr/bin/env sh") || text_is(line, "#!/bin/bash") || text_is(line, "#!/bin/sh") {
        Some("sh")
    } else if text_is(line, "#!/usr/bin/env perl") || text_is(line, "#!/usr/bin/env perl6") || text_is(line, "#!/bin/perl") || text_is(line, "#!/bin/perl6") || text_is(line, "#!/usr/bin/perl") {
        Some("pl")
    } else if text_is(line, "#!/usr/bin/env stack") || text_is(line, "#!/usr/bin/env runhaskell") {
        Some("hs")
    } else if text_is(line, "#!/usr/bin/csh") {
        Some("csh")
    } else if text_is(line, "#!/usr/bin/env node") {
        Some("js")
    } else if text_is(line, "#!/usr/bin/ruby") {
        Some("rb")
    } else if text_is(line, "#!/usr/bin/env ruby") {
        Some("rb")
    } else {
        None
    }
}

/// The byte before a newline that belongs to the line ending.
pub const CARRIAGE_RETURN: u8 = 13;

/// The first line of a text that is not empty: what stands before the first
/// newline, without a carriage return that the newline follows.
pub open spec fn first_text_line(contents: Seq<u8>) -> Seq<u8> {
    let end = line_end(contents, 0);
    if 0 < end < contents.len() && contents[end - 1] == CARRIAGE_RETURN {
        contents.subrange(0, end - 1)
    } else {
        contents.subrange(0, end)
    }
}

/// The extension that the first line of a file stands for. A file that is
/// empty or not well-formed UTF-8 stands for none.
pub open spec fn shebang_of(contents: Seq<u8>) -> Option<Seq<char>> {
    if contents.len() == 0 || !valid_utf8(contents) {
        None
    } else {
        shebang_ext(decode_utf8(first_text_line(contents)))
    }
}

/// Reads the first line of a file as the line that names its interpreter.
pub fn check_shebang(contents: &[u8]) -> (ext: Option<&'static str>)
    ensures
        match ext {
            Some(e) => shebang_of(contents@) == Some(e@),
            None => shebang_of(contents@) is None,
        },
{
    let len: usize = contents.len();
    if len == 0 || !is_utf8(contents) {
        return None;
    }
    let end: usize = match memchr::memchr(NEWLINE, contents) {
        Some(n) => n,
        None => len,
    };
    proof {
        lemma_line_end_is(contents@, 0, end as int);
    }
    let stop: usize = if 0 < end && end < len && contents[end - 1] == CARRIAGE_RETURN {
        end - 1
    } else {
        end
    };
    let line = &contents[0..stop];
    proof {
        if stop < len {
            is_char_boundary_iff_not_is_continuation_byte(contents@, stop as int);
        } else {
            is_char_boundary_start_end_of_seq(contents@);
        }
        valid_utf8_split(contents@, stop as int);
    }
    ext_of_shebang(line)
}

/// The extension a file is told by, from its name and its own extension,
/// both in lower case, and from its contents: a make file, a docker file and
/// a cmake list go by their names, a file without extension by its first line
/// where that names an interpreter, and else by its whole name.
pub open spec fn detected_ext(name: Seq<char>, ext: Option<Seq<char>>, contents: Seq<u8>) -> Seq<
    char,
> {
    if occurs_in(encode_utf8(name), encode_utf8("makefile"@)) {
        "makefile"@
    } else if name == "dockerfile"@ {
        "docker"@
    } else if name == "cmakelists.txt"@ {
        "cmake"@
    } else {
        match ext {
            Some(e) => e,
            None => match shebang_of(contents) {
                Some(e) => e,
                None => name,
            },
        }
    }
}

/// True when a file is told by its name and extension alone, both in lower case.
pub open spec fn known_by_name(name: Seq<char>, ext: Option<Seq<char>>) -> bool {
    ||| occurs_in(encode_utf8(name), encode_utf8("makefile"@))
    ||| name == "dockerfile"@
    ||| name == "cmakelists.txt"@
    ||| ext is Some
}

/// Where a file is told by its name and extension, its contents do not matter.
pub proof fn lemma_known_by_name(
    name: Seq<char>,
    ext: Option<Seq<char>>,
    contents1: Seq<u8>,
    contents2: Seq<u8>,
)
    requires
        known_by_name(name, ext),
    ensures
        detected_ext(name, ext, contents1) == detected_ext(name, ext, contents2),
{
}

/// Tells whether a file is told by its name and extension alone, both in
/// lower case.
pub fn told_by_name(name: &str, ext: Option<&str>) -> (r: bool)
    ensures
        r == known_by_name(
            name@,
            match ext {
                Some(e) => Some(e@),
                None => None,
            },
        ),
{
    ext.is_some() || contains(name.as_bytes(), "makefile".as_bytes()) || str_eq(name, "dockerfile")
        || str_eq(name, "cmakelists.txt")
}

/// Tells whether the contents of a file are looked at to tell its language.
pub fn reads_first_line(file_name: &str, extension: Option<&str>) -> (r: bool)
    ensures
        r == !known_by_name(
            lowercase_of(file_name@),
            match extension {
                Some(e) => Some(lowercase_of(e@)),
                None => None,
            },
        ),
{
    match extension {
        Some(_) => false,
        None => {
            let lower = lowercase(file_name);
            !told_by_name(lower.as_str(), None)
        },
    }
}

/// The language of a file with the given name and extension, both in lower
/// case, and the given contents.
pub fn lang_from_lower(name: &str, ext: Option<&str>, contents: &[u8]) -> (lang: Lang)
    ensures
        lang == ext_lang(
            detected_ext(
                name@,
                match ext {
                    Some(e) => Some(e@),
                    None => None,
                },
                contents@,
            ),
        ),
{
    if contains(name.as_bytes(), "makefile".as_bytes()) {
        lang_of_ext("makefile")
    } else if str_eq(name, "dockerfile") {
        lang_of_ext("docker")
    } else if str_eq(name, "cmakelists.txt") {
        lang_of_ext("cmake")
    } else {
        match ext {
            Some(e) => lang_of_ext(e),
            None => match check_shebang(contents) {
                Some(e) => lang_of_ext(e),
                None => lang_of_ext(name),
            },
        }
    }
}

/// The language of a file, from its name, its extension where it has one,
/// and its contents. The contents are looked at only where the name tells
/// nothing.
pub fn lang_from_ext(file_name: &str, extension: Option<&str>, contents: &[u8]) -> (lang: Lang)
    ensures
        lang == ext_lang(
            detected_ext(
                lowercase_of(file_name@),
                match extension {
                    Some(e) => Some(lowercase_of(e@)),
                    None => None,
                },
                contents@,
            ),
        ),
{
    let name = lowercase(file_name);
    match extension {
        Some(e) => {
            let ext = lowercase(e);
            lang_from_lower(name.as_str(), Some(ext.as_str()), contents)
        },
        None => lang_from_lower(name.as_str(), None, contents),
    }
}

/// The line-comment markers of a language.
pub open spec fn lang_markers(lang: Lang) -> Seq<&'static str> {
    match lang {
        Lang::Ada => seq!["--"],
        Lang::Batch => seq!["REM"],
        Lang::Erlang | Lang::Tex => seq!["%"],
        Lang::FortranModern => seq!["!"],
        Lang::INI => seq![";"],
        Lang::Protobuf | Lang::Zig => seq!["//"],
        Lang::VimScript => seq!["\""],
        Lang::Terraform => seq!["#"],
        Lang::Nix => seq!["#"],
        Lang::Assembly => seq!["#"],
        Lang::CMake => seq!["#"],
        Lang::CoffeeScript => seq!["#"],
        Lang::D => seq!["//"],
        Lang::Docker => seq!["#"],
        Lang::Forth => seq!["\\"],
        Lang::FSharp => seq!["//"],
        Lang::Julia => seq!["#"],
        Lang::Lisp => seq![";"],
        Lang::Lean => seq!["--"],
        Lang::Lua => seq!["--"],
        Lang::Perl => seq!["#"],
        Lang::Puppet => seq!["#"],
        Lang::Pyret => seq!["#"],
        Lang::Python => seq!["#"],
        Lang::Ruby => seq!["#"],
        Lang::Sql => seq!["--"],
        Lang::Haskell | Lang::Idris | Lang::Agda | Lang::PureScript | Lang::Elm => seq!["--"],
        Lang::ColdFusion => seq![],
        Lang::Mustache => seq![],
        Lang::Asp => seq!["'", "REM"],
        Lang::AspNet => seq![],
        Lang::Autoconf => seq!["#", "dnl"],
        Lang::Clojure => seq![";", "#"],
        Lang::FortranLegacy => seq!["c", "C", "!", "*"],
        Lang::Handlebars => seq![],
        Lang::Php => seq!["#", "//"],
        Lang::PowerShell => seq!["#"],
        Lang::Isabelle => seq!["--"],
        Lang::Razor => seq![],
        Lang::Pascal => seq!["//", "(*"],
        Lang::Vue => seq!["//"],
        Lang::Text | Lang::Markdown | Lang::Json | Lang::IntelHex | Lang::Hex | Lang::ReStructuredText => seq![],
        Lang::Oz | Lang::Prolog => seq!["%"],
        Lang::Coq | Lang::Sml | Lang::Wolfram | Lang::OCaml => seq![],
        Lang::Html | Lang::Polly | Lang::RubyHtml | Lang::XML => seq![],
        Lang::BourneShell | Lang::Make | Lang::Awk | Lang::CShell | Lang::Gherkin | Lang::Makefile | Lang::Nim | Lang::R | Lang::SaltStack | Lang::Tcl | Lang::Toml | Lang::Yaml | Lang::Zsh | Lang::Elixir => seq!["#"],
        Lang::AmbientTalk | Lang::C | Lang::CCppHeader | Lang::Rust | Lang::Yacc | Lang::ActionScript | Lang::ColdFusionScript | Lang::Css | Lang::Cpp | Lang::CUDA | Lang::CUDAHeader | Lang::CSharp | Lang::Dart | Lang::DeviceTree | Lang::Glsl | Lang::Go | Lang::Jai | Lang::Java | Lang::JavaScript | Lang::Jsx | Lang::Kotlin | Lang::Less | Lang::LinkerScript | Lang::ObjectiveC | Lang::ObjectiveCpp | Lang::OpenCl | Lang::Qcl | Lang::Sass | Lang::Scala | Lang::Swift | Lang::TypeScript | Lang::Tsx | Lang::UnrealScript | Lang::Stylus | Lang::Qml | Lang::Haxe | Lang::Groovy | Lang::Reason => seq!["//"],
        Lang::Unrecognized => seq![],
    }
}

/// The block-comment delimiter pairs of a language.
pub open spec fn lang_pairs(lang: Lang) -> Seq<(&'static str, &'static str)> {
    match lang {
        Lang::Ada => seq![],
        Lang::Batch => seq![],
        Lang::Erlang | Lang::Tex => seq![],
        Lang::FortranModern => seq![],
        Lang::INI => seq![],
        Lang::Protobuf | Lang::Zig => seq![],
        Lang::VimScript => seq![],
        Lang::Terraform => seq![("/*", "*/")],
        Lang::Nix => seq![("/*", "*/")],
        Lang::Assembly => seq![("/*", "*/")],
        Lang::CMake => seq![("#[[", "]]")],
        Lang::CoffeeScript => seq![("###", "###")],
        Lang::D => seq![("/*", "*/")],
        Lang::Docker => seq![],
        Lang::Forth => seq![("(", ")")],
        Lang::FSharp => seq![("(*", "*)")],
        Lang::Julia => seq![("#=", "=#")],
        Lang::Lisp => seq![("#|", "|#")],
        Lang::Lean => seq![("/-", "-/")],
        Lang::Lua => seq![("--[[", "]]")],
        Lang::Perl => seq![("=pod", "=cut")],
        Lang::Puppet => seq![],
        Lang::Pyret => seq![("#|", "|#")],
        Lang::Python => seq![("'''", "'''")],
        Lang::Ruby => seq![("=begin", "=end")],
        Lang::Sql => seq![("/*", "*/")],
        Lang::Haskell | Lang::Idris | Lang::Agda | Lang::PureScript | Lang::Elm => seq![("{-", "-}")],
        Lang::ColdFusion => seq![("<!---", "--->")],
        Lang::Mustache => seq![("{{!", "}}")],
        Lang::Asp => seq![],
        Lang::AspNet => seq![("<!--", "-->"), ("<%--", "-->")],
        Lang::Autoconf => seq![],
        Lang::Clojure => seq![],
        Lang::FortranLegacy => seq![],
        Lang::Handlebars => seq![("<!--", "-->"), ("{{!", "}}")],
        Lang::Php => seq![("/*", "*/")],
        Lang::PowerShell => seq![("<#", "#>")],
        Lang::Isabelle => seq![("{*", "*}"), ("(*", "*)"), ("\u{2039}", "\u{203a}"), ("\\<open>", "\\<close>")],
        Lang::Razor => seq![("<!--", "-->"), ("@*", "*@")],
        Lang::Pascal => seq![("{", "}")],
        Lang::Vue => seq![("/*", "*/"), ("<!--", "-->")],
        Lang::Text | Lang::Markdown | Lang::Json | Lang::IntelHex | Lang::Hex | Lang::ReStructuredText => seq![],
        Lang::Oz | Lang::Prolog => seq![("/*", "*/")],
        Lang::Coq | Lang::Sml | Lang::Wolfram | Lang::OCaml => seq![("(*", "*)")],
        Lang::Html | Lang::Polly | Lang::RubyHtml | Lang::XML => seq![("<!--", "-->")],
        Lang::BourneShell | Lang::Make | Lang::Awk | Lang::CShell | Lang::Gherkin | Lang::Makefile | Lang::Nim | Lang::R | Lang::SaltStack | Lang::Tcl | Lang::Toml | Lang::Yaml | Lang::Zsh | Lang::Elixir => seq![],
        Lang::AmbientTalk | Lang::C | Lang::CCppHeader | Lang::Rust | Lang::Yacc | Lang::ActionScript | Lang::ColdFusionScript | Lang::Css | Lang::Cpp | Lang::CUDA | Lang::CUDAHeader | Lang::CSharp | Lang::Dart | Lang::DeviceTree | Lang::Glsl | Lang::Go | Lang::Jai | Lang::Java | Lang::JavaScript | Lang::Jsx | Lang::Kotlin | Lang::Less | Lang::LinkerScript | Lang::ObjectiveC | Lang::ObjectiveCpp | Lang::OpenCl | Lang::Qcl | Lang::Sass | Lang::Scala | Lang::Swift | Lang::TypeScript | Lang::Tsx | Lang::UnrealScript | Lang::Stylus | Lang::Qml | Lang::Haxe | Lang::Groovy | Lang::Reason => seq![("/*", "*/")],
        Lang::Unrecognized => seq![],
    }
}

/// A string that is not empty has bytes.
pub proof fn lemma_text_has_bytes(s: &str)
    requires
        s@.len() > 0,
    ensures
        s.spec_bytes().len() > 0,
{
    assert(encode_utf8(s@) == encode_scalar(s@[0] as u32) + encode_utf8(s@.drop_first()));
}

/// How comments are written in a language.
pub fn counter_config_for_lang(lang: Lang) -> (syntax: CommentSyntax)
    requires
        lang != Lang::Unrecognized,
    ensures
        syntax.marker_strs() == lang_markers(lang),
        syntax.pair_strs() == lang_pairs(lang),
        syntax.variant_fits(),
        syntax.wf(),
{
    match lang {
        Lang::Ada => {
            proof {
                reveal_strlit("--");
                lemma_text_has_bytes("--");
            }
            CommentSyntax::new(vec!["--"], Vec::new())
        },
        Lang::Batch => {
            proof {
                reveal_strlit("REM");
                lemma_text_has_bytes("REM");
            }
            CommentSyntax::new(vec!["REM"], Vec::new())
        },
        Lang::Erlang | Lang::Tex => {
            proof {
                reveal_strlit("%");
                lemma_text_has_bytes("%");
            }
            CommentSyntax::new(vec!["%"], Vec::new())
        },
        Lang::FortranModern => {
            proof {
                reveal_strlit("!");
                lemma_text_has_bytes("!");
            }
            CommentSyntax::new(vec!["!"], Vec::new())
        },
        Lang::INI => {
            proof {
                reveal_strlit(";");
                lemma_text_has_bytes(";");
            }
            CommentSyntax::new(vec![";"], Vec::new())
        },
        Lang::Protobuf | Lang::Zig => {
            proof {
                reveal_strlit("//");
                lemma_text_has_bytes("//");
            }
            CommentSyntax::new(vec!["//"], Vec::new())
        },
        Lang::VimScript => {
            proof {
                reveal_strlit("\"");
                lemma_text_has_bytes("\"");
            }
            CommentSyntax::new(vec!["\""], Vec::new())
        },
        Lang::Terraform => {
            proof {
                reveal_strlit("#");
                lemma_text_has_bytes("#");
                reveal_strlit("/*");
                lemma_text_has_bytes("/*");
                reveal_strlit("*/");
                lemma_text_has_bytes("*/");
            }
            CommentSyntax::new(vec!["#"], vec![("/*", "*/")])
        },
        Lang::Nix => {
            proof {
                reveal_strlit("#");
                lemma_text_has_bytes("#");
                reveal_strlit("/*");
                lemma_text_has_bytes("/*");
                reveal_strlit("*/");
                lemma_text_has_bytes("*/");
            }
            CommentSyntax::new(vec!["#"], vec![("/*", "*/")])
        },
        Lang::Assembly => {
            proof {
                reveal_strlit("#");
                lemma_text_has_bytes("#");
                reveal_strlit("/*");
                lemma_text_has_bytes("/*");
                reveal_strlit("*/");
                lemma_text_has_bytes("*/");
            }
            CommentSyntax::new(vec!["#"], vec![("/*", "*/")])
        },
        Lang::CMake => {
            proof {
                reveal_strlit("#");
                lemma_text_has_bytes("#");
                reveal_strlit("#[[");
                lemma_text_has_bytes("#[[");
                reveal_strlit("]]");
                lemma_text_has_bytes("]]");
            }
            CommentSyntax::new(vec!["#"], vec![("#[[", "]]")])
        },
        Lang::CoffeeScript => {
            proof {
                reveal_strlit("#");
                lemma_text_has_bytes("#");
                reveal_strlit("###");
                lemma_text_has_bytes("###");
            }
            CommentSyntax::new(vec!["#"], vec![("###", "###")])
        },
        Lang::D => {
            proof {
                reveal_strlit("//");
                lemma_text_has_bytes("//");
                reveal_strlit("/*");
                lemma_text_has_bytes("/*");
                reveal_strlit("*/");
                lemma_text_has_bytes("*/");
            }
            CommentSyntax::new(vec!["//"], vec![("/*", "*/")])
        },
        Lang::Docker => {
            proof {
                reveal_strlit("#");
                lemma_text_has_bytes("#");
            }
            CommentSyntax::new(vec!["#"], Vec::new())
        },
        Lang::Forth => {
            proof {
                reveal_strlit("\\");
                lemma_text_has_bytes("\\");
                reveal_strlit("(");
                lemma_text_has_bytes("(");
                reveal_strlit(")");
                lemma_text_has_bytes(")");
            }
            CommentSyntax::new(vec!["\\"], vec![("(", ")")])
        },
        Lang::FSharp => {
            proof {
                reveal_strlit("//");
                lemma_text_has_bytes("//");
                reveal_strlit("(*");
                lemma_text_has_bytes("(*");
                reveal_strlit("*)");
                lemma_text_has_bytes("*)");
            }
            CommentSyntax::new(vec!["//"], vec![("(*", "*)")])
        },
        Lang::Julia => {
            proof {
                reveal_strlit("#");
                lemma_text_has_bytes("#");
                reveal_strlit("#=");
                lemma_text_has_bytes("#=");
                reveal_strlit("=#");
                lemma_text_has_bytes("=#");
            }
            CommentSyntax::new(vec!["#"], vec![("#=", "=#")])
        },
        Lang::Lisp => {
            proof {
                reveal_strlit(";");
                lemma_text_has_bytes(";");
                reveal_strlit("#|");
                lemma_text_has_bytes("#|");
                reveal_strlit("|#");
                lemma_text_has_bytes("|#");
            }
            CommentSyntax::new(vec![";"], vec![("#|", "|#")])
        },
        Lang::Lean => {
            proof {
                reveal_strlit("--");
                lemma_text_has_bytes("--");
                reveal_strlit("/-");
                lemma_text_has_bytes("/-");
                reveal_strlit("-/");
                lemma_text_has_bytes("-/");
            }
            CommentSyntax::new(vec!["--"], vec![("/-", "-/")])
        },
        Lang::Lua => {
            proof {
                reveal_strlit("--");
                lemma_text_has_bytes("--");
                reveal_strlit("--[[");
                lemma_text_has_bytes("--[[");
                reveal_strlit("]]");
                lemma_text_has_bytes("]]");
            }
            CommentSyntax::new(vec!["--"], vec![("--[[", "]]")])
        },
        Lang::Perl => {
            proof {
                reveal_strlit("#");
                lemma_text_has_bytes("#");
                reveal_strlit("=pod");
                lemma_text_has_bytes("=pod");
                reveal_strlit("=cut");
                lemma_text_has_bytes("=cut");
            }
            CommentSyntax::new(vec!["#"], vec![("=pod", "=cut")])
        },
        Lang::Puppet => {
            proof {
                reveal_strlit("#");
                lemma_text_has_bytes("#");
            }
            CommentSyntax::new(vec!["#"], Vec::new())
        },
        Lang::Pyret => {
            proof {
                reveal_strlit("#");
                lemma_text_has_bytes("#");
                reveal_strlit("#|");
                lemma_text_has_bytes("#|");
                reveal_strlit("|#");
                lemma_text_has_bytes("|#");
            }
            CommentSyntax::new(vec!["#"], vec![("#|", "|#")])
        },
        Lang::Python => {
            proof {
                reveal_strlit("#");
                lemma_text_has_bytes("#");
                reveal_strlit("'''");
                lemma_text_has_bytes("'''");
            }
            CommentSyntax::new(vec!["#"], vec![("'''", "'''")])
        },
        Lang::Ruby => {
            proof {
                reveal_strlit("#");
                lemma_text_has_bytes("#");
                reveal_strlit("=begin");
                lemma_text_has_bytes("=begin");
                reveal_strlit("=end");
                lemma_text_has_bytes("=end");
            }
            CommentSyntax::new(vec!["#"], vec![("=begin", "=end")])
        },
        Lang::Sql => {
            proof {
                reveal_strlit("--");
                lemma_text_has_bytes("--");
                reveal_strlit("/*");
                lemma_text_has_bytes("/*");
                reveal_strlit("*/");
                lemma_text_has_bytes("*/");
            }
            CommentSyntax::new(vec!["--"], vec![("/*", "*/")])
        },
        Lang::Haskell | Lang::Idris | Lang::Agda | Lang::PureScript | Lang::Elm => {
            proof {
                reveal_strlit("--");
                lemma_text_has_bytes("--");
                reveal_strlit("{-");
                lemma_text_has_bytes("{-");
                reveal_strlit("-}");
                lemma_text_has_bytes("-}");
            }
            CommentSyntax::new(vec!["--"], vec![("{-", "-}")])
        },
        Lang::ColdFusion => {
            proof {
                reveal_strlit("<!---");
                lemma_text_has_bytes("<!---");
                reveal_strlit("--->");
                lemma_text_has_bytes("--->");
            }
            CommentSyntax::new(Vec::new(), vec![("<!---", "--->")])
        },
        Lang::Mustache => {
            proof {
                reveal_strlit("{{!");
                lemma_text_has_bytes("{{!");
                reveal_strlit("}}");
                lemma_text_has_bytes("}}");
            }
            CommentSyntax::new(Vec::new(), vec![("{{!", "}}")])
        },
        Lang::Asp => {
            proof {
                reveal_strlit("'");
                lemma_text_has_bytes("'");
                reveal_strlit("REM");
                lemma_text_has_bytes("REM");
            }
            CommentSyntax::new(vec!["'", "REM"], Vec::new())
        },
        Lang::AspNet => {
            proof {
                reveal_strlit("<!--");
                lemma_text_has_bytes("<!--");
                reveal_strlit("-->");
                lemma_text_has_bytes("-->");
                reveal_strlit("<%--");
                lemma_text_has_bytes("<%--");
            }
            CommentSyntax::new(Vec::new(), vec![("<!--", "-->"), ("<%--", "-->")])
        },
        Lang::Autoconf => {
            proof {
                reveal_strlit("#");
                lemma_text_has_bytes("#");
                reveal_strlit("dnl");
                lemma_text_has_bytes("dnl");
            }
            CommentSyntax::new(vec!["#", "dnl"], Vec::new())
        },
        Lang::Clojure => {
            proof {
                reveal_strlit(";");
                lemma_text_has_bytes(";");
                reveal_strlit("#");
                lemma_text_has_bytes("#");
            }
            CommentSyntax::new(vec![";", "#"], Vec::new())
        },
        Lang::FortranLegacy => {
            proof {
                reveal_strlit("c");
                lemma_text_has_bytes("c");
                reveal_strlit("C");
                lemma_text_has_bytes("C");
                reveal_strlit("!");
                lemma_text_has_bytes("!");
                reveal_strlit("*");
                lemma_text_has_bytes("*");
            }
            CommentSyntax::new(vec!["c", "C", "!", "*"], Vec::new())
        },
        Lang::Handlebars => {
            proof {
                reveal_strlit("<!--");
                lemma_text_has_bytes("<!--");
                reveal_strlit("-->");
                lemma_text_has_bytes("-->");
                reveal_strlit("{{!");
                lemma_text_has_bytes("{{!");
                reveal_strlit("}}");
                lemma_text_has_bytes("}}");
            }
            CommentSyntax::new(Vec::new(), vec![("<!--", "-->"), ("{{!", "}}")])
        },
        Lang::Php => {
            proof {
                reveal_strlit("#");
                lemma_text_has_bytes("#");
                reveal_strlit("//");
                lemma_text_has_bytes("//");
                reveal_strlit("/*");
                lemma_text_has_bytes("/*");
                reveal_strlit("*/");
                lemma_text_has_bytes("*/");
            }
            CommentSyntax::new(vec!["#", "//"], vec![("/*", "*/")])
        },
        Lang::PowerShell => {
            proof {
                reveal_strlit("#");
                lemma_text_has_bytes("#");
                reveal_strlit("<#");
                lemma_text_has_bytes("<#");
                reveal_strlit("#>");
                lemma_text_has_bytes("#>");
            }
            CommentSyntax::new(vec!["#"], vec![("<#", "#>")])
        },
        Lang::Isabelle => {
            proof {
                reveal_strlit("--");
                lemma_text_has_bytes("--");
                reveal_strlit("{*");
                lemma_text_has_bytes("{*");
                reveal_strlit("*}");
                lemma_text_has_bytes("*}");
                reveal_strlit("(*");
                lemma_text_has_bytes("(*");
                reveal_strlit("*)");
                lemma_text_has_bytes("*)");
                reveal_strlit("\u{2039}");
                lemma_text_has_bytes("\u{2039}");
                reveal_strlit("\u{203a}");
                lemma_text_has_bytes("\u{203a}");
                reveal_strlit("\\<open>");
                lemma_text_has_bytes("\\<open>");
                reveal_strlit("\\<close>");
                lemma_text_has_bytes("\\<close>");
            }
            CommentSyntax::new(vec!["--"], vec![("{*", "*}"), ("(*", "*)"), ("\u{2039}", "\u{203a}"), ("\\<open>", "\\<close>")])
        },
        Lang::Razor => {
            proof {
                reveal_strlit("<!--");
                lemma_text_has_bytes("<!--");
                reveal_strlit("-->");
                lemma_text_has_bytes("-->");
                reveal_strlit("@*");
                lemma_text_has_bytes("@*");
                reveal_strlit("*@");
                lemma_text_has_bytes("*@");
            }
            CommentSyntax::new(Vec::new(), vec![("<!--", "-->"), ("@*", "*@")])
        },
        Lang::Pascal => {
            proof {
                reveal_strlit("//");
                lemma_text_has_bytes("//");
                reveal_strlit("(*");
                lemma_text_has_bytes("(*");
                reveal_strlit("{");
                lemma_text_has_bytes("{");
                reveal_strlit("}");
                lemma_text_has_bytes("}");
            }
            CommentSyntax::new(vec!["//", "(*"], vec![("{", "}")])
        },
        Lang::Vue => {
            proof {
                reveal_strlit("//");
                lemma_text_has_bytes("//");
                reveal_strlit("/*");
                lemma_text_has_bytes("/*");
                reveal_strlit("*/");
                lemma_text_has_bytes("*/");
                reveal_strlit("<!--");
                lemma_text_has_bytes("<!--");
                reveal_strlit("-->");
                lemma_text_has_bytes("-->");
            }
            CommentSyntax::new(vec!["//"], vec![("/*", "*/"), ("<!--", "-->")])
        },
        Lang::Text | Lang::Markdown | Lang::Json | Lang::IntelHex | Lang::Hex | Lang::ReStructuredText => {
            CommentSyntax::new(Vec::new(), Vec::new())
        },
        Lang::Oz | Lang::Prolog => {
            proof {
                reveal_strlit("%");
                lemma_text_has_bytes("%");
                reveal_strlit("/*");
                lemma_text_has_bytes("/*");
                reveal_strlit("*/");
                lemma_text_has_bytes("*/");
            }
            CommentSyntax::new(vec!["%"], vec![("/*", "*/")])
        },
        Lang::Coq | Lang::Sml | Lang::Wolfram | Lang::OCaml => {
            proof {
                reveal_strlit("(*");
                lemma_text_has_bytes("(*");
                reveal_strlit("*)");
                lemma_text_has_bytes("*)");
            }
            CommentSyntax::new(Vec::new(), vec![("(*", "*)")])
        },
        Lang::Html | Lang::Polly | Lang::RubyHtml | Lang::XML => {
            proof {
                reveal_strlit("<!--");
                lemma_text_has_bytes("<!--");
                reveal_strlit("-->");
                lemma_text_has_bytes("-->");
            }
            CommentSyntax::new(Vec::new(), vec![("<!--", "-->")])
        },
        Lang::BourneShell | Lang::Make | Lang::Awk | Lang::CShell | Lang::Gherkin | Lang::Makefile | Lang::Nim | Lang::R | Lang::SaltStack | Lang::Tcl | Lang::Toml | Lang::Yaml | Lang::Zsh | Lang::Elixir => {
            proof {
                reveal_strlit("#");
                lemma_text_has_bytes("#");
            }
            CommentSyntax::new(vec!["#"], Vec::new())
        },
        Lang::AmbientTalk | Lang::C | Lang::CCppHeader | Lang::Rust | Lang::Yacc | Lang::ActionScript | Lang::ColdFusionScript | Lang::Css | Lang::Cpp | Lang::CUDA | Lang::CUDAHeader | Lang::CSharp | Lang::Dart | Lang::DeviceTree | Lang::Glsl | Lang::Go | Lang::Jai | Lang::Java | Lang::JavaScript | Lang::Jsx | Lang::Kotlin | Lang::Less | Lang::LinkerScript | Lang::ObjectiveC | Lang::ObjectiveCpp | Lang::OpenCl | Lang::Qcl | Lang::Sass | Lang::Scala | Lang::Swift | Lang::TypeScript | Lang::Tsx | Lang::UnrealScript | Lang::Stylus | Lang::Qml | Lang::Haxe | Lang::Groovy | Lang::Reason => {
            proof {
                reveal_strlit("//");
                lemma_text_has_bytes("//");
                reveal_strlit("/*");
                lemma_text_has_bytes("/*");
                reveal_strlit("*/");
                lemma_text_has_bytes("*/");
            }
            CommentSyntax::new(vec!["//"], vec![("/*", "*/")])
        },
        Lang::Unrecognized => CommentSyntax::NoComments,
    }
}

} // verus!
