//! The display colours of programming languages, by language name.

use vstd::prelude::*;
use vstd::string::*;
use crate::text_map::TextMap;

verus! {

/// `table` with the colours of the languages from `1C Enterprise` to `Assembly`.
pub open spec fn with_first_part(table: Map<Seq<char>, Seq<char>>) -> Map<Seq<char>, Seq<char>> {
    table
        .insert("1C Enterprise"@, "#814CCC"@)
        .insert("2-Dimensional Array"@, "#38761D"@)
        .insert("4D"@, "#004289"@)
        .insert("ABAP"@, "#E8274B"@)
        .insert("ABAP CDS"@, "#555e25"@)
        .insert("AGS Script"@, "#B9D9FF"@)
        .insert("AIDL"@, "#34EB6B"@)
        .insert("AL"@, "#3AA2B5"@)
        .insert("AMPL"@, "#E6EFBB"@)
        .insert("ANTLR"@, "#9DC3FF"@)
        .insert("API Blueprint"@, "#2ACCA8"@)
        .insert("APL"@, "#5A8164"@)
        .insert("ASP.NET"@, "#9400ff"@)
        .insert("ATS"@, "#1ac620"@)
        .insert("ActionScript"@, "#882B0F"@)
        .insert("Ada"@, "#02f88c"@)
        .insert("Adblock Filter List"@, "#800000"@)
        .insert("Adobe Font Metrics"@, "#fa0f00"@)
        .insert("Agda"@, "#315665"@)
        .insert("Alloy"@, "#64C800"@)
        .insert("Alpine Abuild"@, "#0D597F"@)
        .insert("Altium Designer"@, "#A89663"@)
        .insert("AngelScript"@, "#C7D7DC"@)
        .insert("Ant Build System"@, "#A9157E"@)
        .insert("Antlers"@, "#ff269e"@)
        .insert("ApacheConf"@, "#d12127"@)
        .insert("Apex"@, "#1797c0"@)
        .insert("Apollo Guidance Computer"@, "#0B3D91"@)
        .insert("AppleScript"@, "#101F1F"@)
        .insert("Arc"@, "#aa2afe"@)
        .insert("AsciiDoc"@, "#73a0c5"@)
        .insert("AspectJ"@, "#a957b0"@)
        .insert("Assembly"@, "#6E4C13"@)
}

/// Enters the colours of the languages from `1C Enterprise` to `Assembly`.
fn enter_first_part(table: &mut TextMap)
    ensures
        final(table)@ == with_first_part(old(table)@),
{
    table.insert("1C Enterprise".to_owned(), "#814CCC".to_owned());
    table.insert("2-Dimensional Array".to_owned(), "#38761D".to_owned());
    table.insert("4D".to_owned(), "#004289".to_owned());
    table.insert("ABAP".to_owned(), "#E8274B".to_owned());
    table.insert("ABAP CDS".to_owned(), "#555e25".to_owned());
    table.insert("AGS Script".to_owned(), "#B9D9FF".to_owned());
    table.insert("AIDL".to_owned(), "#34EB6B".to_owned());
    table.insert("AL".to_owned(), "#3AA2B5".to_owned());
    table.insert("AMPL".to_owned(), "#E6EFBB".to_owned());
    table.insert("ANTLR".to_owned(), "#9DC3FF".to_owned());
    table.insert("API Blueprint".to_owned(), "#2ACCA8".to_owned());
    table.insert("APL".to_owned(), "#5A8164".to_owned());
    table.insert("ASP.NET".to_owned(), "#9400ff".to_owned());
    table.insert("ATS".to_owned(), "#1ac620".to_owned());
    table.insert("ActionScript".to_owned(), "#882B0F".to_owned());
    table.insert("Ada".to_owned(), "#02f88c".to_owned());
    table.insert("Adblock Filter List".to_owned(), "#800000".to_owned());
    table.insert("Adobe Font Metrics".to_owned(), "#fa0f00".to_owned());
    table.insert("Agda".to_owned(), "#315665".to_owned());
    table.insert("Alloy".to_owned(), "#64C800".to_owned());
    table.insert("Alpine Abuild".to_owned(), "#0D597F".to_owned());
    table.insert("Altium Designer".to_owned(), "#A89663".to_owned());
    table.insert("AngelScript".to_owned(), "#C7D7DC".to_owned());
    table.insert("Ant Build System".to_owned(), "#A9157E".to_owned());
    table.insert("Antlers".to_owned(), "#ff269e".to_owned());
    table.insert("ApacheConf".to_owned(), "#d12127".to_owned());
    table.insert("Apex".to_owned(), "#1797c0".to_owned());
    table.insert("Apollo Guidance Computer".to_owned(), "#0B3D91".to_owned());
    table.insert("AppleScript".to_owned(), "#101F1F".to_owned());
    table.insert("Arc".to_owned(), "#aa2afe".to_owned());
    table.insert("AsciiDoc".to_owned(), "#73a0c5".to_owned());
    table.insert("AspectJ".to_owned(), "#a957b0".to_owned());
    table.insert("Assembly".to_owned(), "#6E4C13".to_owned());
}

/// `table` with the colours of the languages from `Astro` to `CAP CDS`.
pub open spec fn with_second_part(table: Map<Seq<char>, Seq<char>>) -> Map<Seq<char>, Seq<char>> {
    table
        .insert("Astro"@, "#ff5a03"@)
        .insert("Asymptote"@, "#ff0000"@)
        .insert("Augeas"@, "#9CC134"@)
        .insert("AutoHotkey"@, "#6594b9"@)
        .insert("AutoIt"@, "#1C3552"@)
        .insert("Avro IDL"@, "#0040FF"@)
        .insert("Awk"@, "#c30e9b"@)
        .insert("BASIC"@, "#ff0000"@)
        .insert("BQN"@, "#2b7067"@)
        .insert("Ballerina"@, "#FF5000"@)
        .insert("Batchfile"@, "#C1F12E"@)
        .insert("Beef"@, "#a52f4e"@)
        .insert("Berry"@, "#15A13C"@)
        .insert("BibTeX"@, "#778899"@)
        .insert("Bicep"@, "#519aba"@)
        .insert("Bikeshed"@, "#5562ac"@)
        .insert("Bison"@, "#6A463F"@)
        .insert("BitBake"@, "#00bce4"@)
        .insert("Blade"@, "#f7523f"@)
        .insert("BlitzBasic"@, "#00FFAE"@)
        .insert("BlitzMax"@, "#cd6400"@)
        .insert("Bluespec"@, "#12223c"@)
        .insert("Bluespec BH"@, "#12223c"@)
        .insert("Boo"@, "#d4bec1"@)
        .insert("Boogie"@, "#c80fa0"@)
        .insert("Brainfuck"@, "#2F2530"@)
        .insert("BrighterScript"@, "#66AABB"@)
        .insert("Brightscript"@, "#662D91"@)
        .insert("Browserslist"@, "#ffd539"@)
        .insert("C"@, "#555555"@)
        .insert("C#"@, "#178600"@)
        .insert("C++"@, "#f34b7d"@)
        .insert("CAP CDS"@, "#0092d1"@)
}

/// Enters the colours of the languages from `Astro` to `CAP CDS`.
fn enter_second_part(table: &mut TextMap)
    ensures
        final(table)@ == with_second_part(old(table)@),
{
    table.insert("Astro".to_owned(), "#ff5a03".to_owned());
    table.insert("Asymptote".to_owned(), "#ff0000".to_owned());
    table.insert("Augeas".to_owned(), "#9CC134".to_owned());
    table.insert("AutoHotkey".to_owned(), "#6594b9".to_owned());
    table.insert("AutoIt".to_owned(), "#1C3552".to_owned());
    table.insert("Avro IDL".to_owned(), "#0040FF".to_owned());
    table.insert("Awk".to_owned(), "#c30e9b".to_owned());
    table.insert("BASIC".to_owned(), "#ff0000".to_owned());
    table.insert("BQN".to_owned(), "#2b7067".to_owned());
    table.insert("Ballerina".to_owned(), "#FF5000".to_owned());
    table.insert("Batchfile".to_owned(), "#C1F12E".to_owned());
    table.insert("Beef".to_owned(), "#a52f4e".to_owned());
    table.insert("Berry".to_owned(), "#15A13C".to_owned());
    table.insert("BibTeX".to_owned(), "#778899".to_owned());
    table.insert("Bicep".to_owned(), "#519aba".to_owned());
    table.insert("Bikeshed".to_owned(), "#5562ac".to_owned());
    table.insert("Bison".to_owned(), "#6A463F".to_owned());
    table.insert("BitBake".to_owned(), "#00bce4".to_owned());
    table.insert("Blade".to_owned(), "#f7523f".to_owned());
    table.insert("BlitzBasic".to_owned(), "#00FFAE".to_owned());
    table.insert("BlitzMax".to_owned(), "#cd6400".to_owned());
    table.insert("Bluespec".to_owned(), "#12223c".to_owned());
    table.insert("Bluespec BH".to_owned(), "#12223c".to_owned());
    table.insert("Boo".to_owned(), "#d4bec1".to_owned());
    table.insert("Boogie".to_owned(), "#c80fa0".to_owned());
    table.insert("Brainfuck".to_owned(), "#2F2530".to_owned());
    table.insert("BrighterScript".to_owned(), "#66AABB".to_owned());
    table.insert("Brightscript".to_owned(), "#662D91".to_owned());
    table.insert("Browserslist".to_owned(), "#ffd539".to_owned());
    table.insert("C".to_owned(), "#555555".to_owned());
    table.insert("C#".to_owned(), "#178600".to_owned());
    table.insert("C++".to_owned(), "#f34b7d".to_owned());
    table.insert("CAP CDS".to_owned(), "#0092d1".to_owned());
}

/// `table` with the colours of the languages from `CLIPS` to `Common Workflow Language`.
pub open spec fn with_third_part(table: Map<Seq<char>, Seq<char>>) -> Map<Seq<char>, Seq<char>> {
    table
        .insert("CLIPS"@, "#00A300"@)
        .insert("CMake"@, "#DA3434"@)
        .insert("COLLADA"@, "#F1A42B"@)
        .insert("CSON"@, "#244776"@)
        .insert("CSS"@, "#563d7c"@)
        .insert("CSV"@, "#237346"@)
        .insert("CUE"@, "#5886E1"@)
        .insert("CWeb"@, "#00007a"@)
        .insert("Cabal Config"@, "#483465"@)
        .insert("Caddyfile"@, "#22b638"@)
        .insert("Cadence"@, "#00ef8b"@)
        .insert("Cairo"@, "#ff4a48"@)
        .insert("CameLIGO"@, "#3be133"@)
        .insert("Cap'n Proto"@, "#c42727"@)
        .insert("Ceylon"@, "#dfa535"@)
        .insert("Chapel"@, "#8dc63f"@)
        .insert("ChucK"@, "#3f8000"@)
        .insert("Circom"@, "#707575"@)
        .insert("Cirru"@, "#ccccff"@)
        .insert("Clarion"@, "#db901e"@)
        .insert("Clarity"@, "#5546ff"@)
        .insert("Classic ASP"@, "#6a40fd"@)
        .insert("Clean"@, "#3F85AF"@)
        .insert("Click"@, "#E4E6F3"@)
        .insert("Clojure"@, "#db5855"@)
        .insert("Closure Templates"@, "#0d948f"@)
        .insert("Cloud Firestore Security Rules"@, "#FFA000"@)
        .insert("CodeQL"@, "#140f46"@)
        .insert("CoffeeScript"@, "#244776"@)
        .insert("ColdFusion"@, "#ed2cd6"@)
        .insert("ColdFusion CFC"@, "#ed2cd6"@)
        .insert("Common Lisp"@, "#3fb68b"@)
        .insert("Common Workflow Language"@, "#B5314C"@)
}

/// Enters the colours of the languages from `CLIPS` to `Common Workflow Language`.
fn enter_third_part(table: &mut TextMap)
    ensures
        final(table)@ == with_third_part(old(table)@),
{
    table.insert("CLIPS".to_owned(), "#00A300".to_owned());
    table.insert("CMake".to_owned(), "#DA3434".to_owned());
    table.insert("COLLADA".to_owned(), "#F1A42B".to_owned());
    table.insert("CSON".to_owned(), "#244776".to_owned());
    table.insert("CSS".to_owned(), "#563d7c".to_owned());
    table.insert("CSV".to_owned(), "#237346".to_owned());
    table.insert("CUE".to_owned(), "#5886E1".to_owned());
    table.insert("CWeb".to_owned(), "#00007a".to_owned());
    table.insert("Cabal Config".to_owned(), "#483465".to_owned());
    table.insert("Caddyfile".to_owned(), "#22b638".to_owned());
    table.insert("Cadence".to_owned(), "#00ef8b".to_owned());
    table.insert("Cairo".to_owned(), "#ff4a48".to_owned());
    table.insert("CameLIGO".to_owned(), "#3be133".to_owned());
    table.insert("Cap'n Proto".to_owned(), "#c42727".to_owned());
    table.insert("Ceylon".to_owned(), "#dfa535".to_owned());
    table.insert("Chapel".to_owned(), "#8dc63f".to_owned());
    table.insert("ChucK".to_owned(), "#3f8000".to_owned());
    table.insert("Circom".to_owned(), "#707575".to_owned());
    table.insert("Cirru".to_owned(), "#ccccff".to_owned());
    table.insert("Clarion".to_owned(), "#db901e".to_owned());
    table.insert("Clarity".to_owned(), "#5546ff".to_owned());
    table.insert("Classic ASP".to_owned(), "#6a40fd".to_owned());
    table.insert("Clean".to_owned(), "#3F85AF".to_owned());
    table.insert("Click".to_owned(), "#E4E6F3".to_owned());
    table.insert("Clojure".to_owned(), "#db5855".to_owned());
    table.insert("Closure Templates".to_owned(), "#0d948f".to_owned());
    table.insert("Cloud Firestore Security Rules".to_owned(), "#FFA000".to_owned());
    table.insert("CodeQL".to_owned(), "#140f46".to_owned());
    table.insert("CoffeeScript".to_owned(), "#244776".to_owned());
    table.insert("ColdFusion".to_owned(), "#ed2cd6".to_owned());
    table.insert("ColdFusion CFC".to_owned(), "#ed2cd6".to_owned());
    table.insert("Common Lisp".to_owned(), "#3fb68b".to_owned());
    table.insert("Common Workflow Language".to_owned(), "#B5314C".to_owned());
}

/// `table` with the colours of the languages from `Component Pascal` to `Ecere Projects`.
pub open spec fn with_fourth_part(table: Map<Seq<char>, Seq<char>>) -> Map<Seq<char>, Seq<char>> {
    table
        .insert("Component Pascal"@, "#B0CE4E"@)
        .insert("Coq"@, "#d0b68c"@)
        .insert("Crystal"@, "#000100"@)
        .insert("Csound"@, "#1a1a1a"@)
        .insert("Csound Document"@, "#1a1a1a"@)
        .insert("Csound Score"@, "#1a1a1a"@)
        .insert("Cuda"@, "#3A4E3A"@)
        .insert("Curry"@, "#531242"@)
        .insert("Cypher"@, "#34c0eb"@)
        .insert("Cython"@, "#fedf5b"@)
        .insert("D"@, "#ba595e"@)
        .insert("D2"@, "#526ee8"@)
        .insert("DM"@, "#447265"@)
        .insert("Dafny"@, "#FFEC25"@)
        .insert("Darcs Patch"@, "#8eff23"@)
        .insert("Dart"@, "#00B4AB"@)
        .insert("DataWeave"@, "#003a52"@)
        .insert("Debian Package Control File"@, "#D70751"@)
        .insert("DenizenScript"@, "#FBEE96"@)
        .insert("Dhall"@, "#dfafff"@)
        .insert("DirectX 3D File"@, "#aace60"@)
        .insert("Dockerfile"@, "#384d54"@)
        .insert("Dogescript"@, "#cca760"@)
        .insert("Dotenv"@, "#e5d559"@)
        .insert("Dylan"@, "#6c616e"@)
        .insert("E"@, "#ccce35"@)
        .insert("ECL"@, "#8a1267"@)
        .insert("ECLiPSe"@, "#001d9d"@)
        .insert("EJS"@, "#a91e50"@)
        .insert("EQ"@, "#a78649"@)
        .insert("Earthly"@, "#2af0ff"@)
        .insert("Easybuild"@, "#069406"@)
        .insert("Ecere Projects"@, "#913960"@)
}

/// Enters the colours of the languages from `Component Pascal` to `Ecere Projects`.
fn enter_fourth_part(table: &mut TextMap)
    ensures
        final(table)@ == with_fourth_part(old(table)@),
{
    table.insert("Component Pascal".to_owned(), "#B0CE4E".to_owned());
    table.insert("Coq".to_owned(), "#d0b68c".to_owned());
    table.insert("Crystal".to_owned(), "#000100".to_owned());
    table.insert("Csound".to_owned(), "#1a1a1a".to_owned());
    table.insert("Csound Document".to_owned(), "#1a1a1a".to_owned());
    table.insert("Csound Score".to_owned(), "#1a1a1a".to_owned());
    table.insert("Cuda".to_owned(), "#3A4E3A".to_owned());
    table.insert("Curry".to_owned(), "#531242".to_owned());
    table.insert("Cypher".to_owned(), "#34c0eb".to_owned());
    table.insert("Cython".to_owned(), "#fedf5b".to_owned());
    table.insert("D".to_owned(), "#ba595e".to_owned());
    table.insert("D2".to_owned(), "#526ee8".to_owned());
    table.insert("DM".to_owned(), "#447265".to_owned());
    table.insert("Dafny".to_owned(), "#FFEC25".to_owned());
    table.insert("Darcs Patch".to_owned(), "#8eff23".to_owned());
    table.insert("Dart".to_owned(), "#00B4AB".to_owned());
    table.insert("DataWeave".to_owned(), "#003a52".to_owned());
    table.insert("Debian Package Control File".to_owned(), "#D70751".to_owned());
    table.insert("DenizenScript".to_owned(), "#FBEE96".to_owned());
    table.insert("Dhall".to_owned(), "#dfafff".to_owned());
    table.insert("DirectX 3D File".to_owned(), "#aace60".to_owned());
    table.insert("Dockerfile".to_owned(), "#384d54".to_owned());
    table.insert("Dogescript".to_owned(), "#cca760".to_owned());
    table.insert("Dotenv".to_owned(), "#e5d559".to_owned());
    table.insert("Dylan".to_owned(), "#6c616e".to_owned());
    table.insert("E".to_owned(), "#ccce35".to_owned());
    table.insert("ECL".to_owned(), "#8a1267".to_owned());
    table.insert("ECLiPSe".to_owned(), "#001d9d".to_owned());
    table.insert("EJS".to_owned(), "#a91e50".to_owned());
    table.insert("EQ".to_owned(), "#a78649".to_owned());
    table.insert("Earthly".to_owned(), "#2af0ff".to_owned());
    table.insert("Easybuild".to_owned(), "#069406".to_owned());
    table.insert("Ecere Projects".to_owned(), "#913960".to_owned());
}

/// `table` with the colours of the languages from `Ecmarkup` to `G-code`.
pub open spec fn with_fifth_part(table: Map<Seq<char>, Seq<char>>) -> Map<Seq<char>, Seq<char>> {
    table
        .insert("Ecmarkup"@, "#eb8131"@)
        .insert("Edge"@, "#0dffe0"@)
        .insert("EdgeQL"@, "#31A7FF"@)
        .insert("EditorConfig"@, "#fff1f2"@)
        .insert("Eiffel"@, "#4d6977"@)
        .insert("Elixir"@, "#6e4a7e"@)
        .insert("Elm"@, "#60B5CC"@)
        .insert("Elvish"@, "#55BB55"@)
        .insert("Elvish Transcript"@, "#55BB55"@)
        .insert("Emacs Lisp"@, "#c065db"@)
        .insert("EmberScript"@, "#FFF4F3"@)
        .insert("Erlang"@, "#B83998"@)
        .insert("Euphoria"@, "#FF790B"@)
        .insert("F#"@, "#b845fc"@)
        .insert("F*"@, "#572e30"@)
        .insert("FIGlet Font"@, "#FFDDBB"@)
        .insert("FIRRTL"@, "#2f632f"@)
        .insert("FLUX"@, "#88ccff"@)
        .insert("Factor"@, "#636746"@)
        .insert("Fancy"@, "#7b9db4"@)
        .insert("Fantom"@, "#14253c"@)
        .insert("Faust"@, "#c37240"@)
        .insert("Fennel"@, "#fff3d7"@)
        .insert("Filebench WML"@, "#F6B900"@)
        .insert("Fluent"@, "#ffcc33"@)
        .insert("Forth"@, "#341708"@)
        .insert("Fortran"@, "#4d41b1"@)
        .insert("Fortran Free Form"@, "#4d41b1"@)
        .insert("FreeBasic"@, "#141AC9"@)
        .insert("FreeMarker"@, "#0050b2"@)
        .insert("Frege"@, "#00cafe"@)
        .insert("Futhark"@, "#5f021f"@)
        .insert("G-code"@, "#D08CF2"@)
}

/// Enters the colours of the languages from `Ecmarkup` to `G-code`.
fn enter_fifth_part(table: &mut TextMap)
    ensures
        final(table)@ == with_fifth_part(old(table)@),
{
    table.insert("Ecmarkup".to_owned(), "#eb8131".to_owned());
    table.insert("Edge".to_owned(), "#0dffe0".to_owned());
    table.insert("EdgeQL".to_owned(), "#31A7FF".to_owned());
    table.insert("EditorConfig".to_owned(), "#fff1f2".to_owned());
    table.insert("Eiffel".to_owned(), "#4d6977".to_owned());
    table.insert("Elixir".to_owned(), "#6e4a7e".to_owned());
    table.insert("Elm".to_owned(), "#60B5CC".to_owned());
    table.insert("Elvish".to_owned(), "#55BB55".to_owned());
    table.insert("Elvish Transcript".to_owned(), "#55BB55".to_owned());
    table.insert("Emacs Lisp".to_owned(), "#c065db".to_owned());
    table.insert("EmberScript".to_owned(), "#FFF4F3".to_owned());
    table.insert("Erlang".to_owned(), "#B83998".to_owned());
    table.insert("Euphoria".to_owned(), "#FF790B".to_owned());
    table.insert("F#".to_owned(), "#b845fc".to_owned());
    table.insert("F*".to_owned(), "#572e30".to_owned());
    table.insert("FIGlet Font".to_owned(), "#FFDDBB".to_owned());
    table.insert("FIRRTL".to_owned(), "#2f632f".to_owned());
    table.insert("FLUX".to_owned(), "#88ccff".to_owned());
    table.insert("Factor".to_owned(), "#636746".to_owned());
    table.insert("Fancy".to_owned(), "#7b9db4".to_owned());
    table.insert("Fantom".to_owned(), "#14253c".to_owned());
    table.insert("Faust".to_owned(), "#c37240".to_owned());
    table.insert("Fennel".to_owned(), "#fff3d7".to_owned());
    table.insert("Filebench WML".to_owned(), "#F6B900".to_owned());
    table.insert("Fluent".to_owned(), "#ffcc33".to_owned());
    table.insert("Forth".to_owned(), "#341708".to_owned());
    table.insert("Fortran".to_owned(), "#4d41b1".to_owned());
    table.insert("Fortran Free Form".to_owned(), "#4d41b1".to_owned());
    table.insert("FreeBasic".to_owned(), "#141AC9".to_owned());
    table.insert("FreeMarker".to_owned(), "#0050b2".to_owned());
    table.insert("Frege".to_owned(), "#00cafe".to_owned());
    table.insert("Futhark".to_owned(), "#5f021f".to_owned());
    table.insert("G-code".to_owned(), "#D08CF2".to_owned());
}

/// `table` with the colours of the languages from `GAML` to `Golo`.
pub open spec fn with_sixth_part(table: Map<Seq<char>, Seq<char>>) -> Map<Seq<char>, Seq<char>> {
    table
        .insert("GAML"@, "#FFC766"@)
        .insert("GAMS"@, "#f49a22"@)
        .insert("GAP"@, "#0000cc"@)
        .insert("GCC Machine Description"@, "#FFCFAB"@)
        .insert("GDScript"@, "#355570"@)
        .insert("GEDCOM"@, "#003058"@)
        .insert("GLSL"@, "#5686a5"@)
        .insert("GSC"@, "#FF6800"@)
        .insert("Game Maker Language"@, "#71b417"@)
        .insert("Gemfile.lock"@, "#701516"@)
        .insert("Gemini"@, "#ff6900"@)
        .insert("Genero 4gl"@, "#63408e"@)
        .insert("Genero per"@, "#d8df39"@)
        .insert("Genie"@, "#fb855d"@)
        .insert("Genshi"@, "#951531"@)
        .insert("Gentoo Ebuild"@, "#9400ff"@)
        .insert("Gentoo Eclass"@, "#9400ff"@)
        .insert("Gerber Image"@, "#d20b00"@)
        .insert("Gherkin"@, "#5B2063"@)
        .insert("Git Attributes"@, "#F44D27"@)
        .insert("Git Config"@, "#F44D27"@)
        .insert("Git Revision List"@, "#F44D27"@)
        .insert("Gleam"@, "#ffaff3"@)
        .insert("Glimmer JS"@, "#F5835F"@)
        .insert("Glimmer TS"@, "#3178c6"@)
        .insert("Glyph"@, "#c1ac7f"@)
        .insert("Gnuplot"@, "#f0a9f0"@)
        .insert("Go"@, "#00ADD8"@)
        .insert("Go Checksums"@, "#00ADD8"@)
        .insert("Go Module"@, "#00ADD8"@)
        .insert("Go Workspace"@, "#00ADD8"@)
        .insert("Godot Resource"@, "#355570"@)
        .insert("Golo"@, "#88562A"@)
}

/// Enters the colours of the languages from `GAML` to `Golo`.
fn enter_sixth_part(table: &mut TextMap)
    ensures
        final(table)@ == with_sixth_part(old(table)@),
{
    table.insert("GAML".to_owned(), "#FFC766".to_owned());
    table.insert("GAMS".to_owned(), "#f49a22".to_owned());
    table.insert("GAP".to_owned(), "#0000cc".to_owned());
    table.insert("GCC Machine Description".to_owned(), "#FFCFAB".to_owned());
    table.insert("GDScript".to_owned(), "#355570".to_owned());
    table.insert("GEDCOM".to_owned(), "#003058".to_owned());
    table.insert("GLSL".to_owned(), "#5686a5".to_owned());
    table.insert("GSC".to_owned(), "#FF6800".to_owned());
    table.insert("Game Maker Language".to_owned(), "#71b417".to_owned());
    table.insert("Gemfile.lock".to_owned(), "#701516".to_owned());
    table.insert("Gemini".to_owned(), "#ff6900".to_owned());
    table.insert("Genero 4gl".to_owned(), "#63408e".to_owned());
    table.insert("Genero per".to_owned(), "#d8df39".to_owned());
    table.insert("Genie".to_owned(), "#fb855d".to_owned());
    table.insert("Genshi".to_owned(), "#951531".to_owned());
    table.insert("Gentoo Ebuild".to_owned(), "#9400ff".to_owned());
    table.insert("Gentoo Eclass".to_owned(), "#9400ff".to_owned());
    table.insert("Gerber Image".to_owned(), "#d20b00".to_owned());
    table.insert("Gherkin".to_owned(), "#5B2063".to_owned());
    table.insert("Git Attributes".to_owned(), "#F44D27".to_owned());
    table.insert("Git Config".to_owned(), "#F44D27".to_owned());
    table.insert("Git Revision List".to_owned(), "#F44D27".to_owned());
    table.insert("Gleam".to_owned(), "#ffaff3".to_owned());
    table.insert("Glimmer JS".to_owned(), "#F5835F".to_owned());
    table.insert("Glimmer TS".to_owned(), "#3178c6".to_owned());
    table.insert("Glyph".to_owned(), "#c1ac7f".to_owned());
    table.insert("Gnuplot".to_owned(), "#f0a9f0".to_owned());
    table.insert("Go".to_owned(), "#00ADD8".to_owned());
    table.insert("Go Checksums".to_owned(), "#00ADD8".to_owned());
    table.insert("Go Module".to_owned(), "#00ADD8".to_owned());
    table.insert("Go Workspace".to_owned(), "#00ADD8".to_owned());
    table.insert("Godot Resource".to_owned(), "#355570".to_owned());
    table.insert("Golo".to_owned(), "#88562A".to_owned());
}

/// `table` with the colours of the languages from `Gosu` to `IGOR Pro`.
pub open spec fn with_seventh_part(table: Map<Seq<char>, Seq<char>>) -> Map<Seq<char>, Seq<char>> {
    table
        .insert("Gosu"@, "#82937f"@)
        .insert("Grace"@, "#615f8b"@)
        .insert("Gradle"@, "#02303a"@)
        .insert("Gradle Kotlin DSL"@, "#02303a"@)
        .insert("Grammatical Framework"@, "#ff0000"@)
        .insert("GraphQL"@, "#e10098"@)
        .insert("Graphviz (DOT)"@, "#2596be"@)
        .insert("Groovy"@, "#4298b8"@)
        .insert("Groovy Server Pages"@, "#4298b8"@)
        .insert("HAProxy"@, "#106da9"@)
        .insert("HCL"@, "#844FBA"@)
        .insert("HLSL"@, "#aace60"@)
        .insert("HOCON"@, "#9ff8ee"@)
        .insert("HTML"@, "#e34c26"@)
        .insert("HTML+ECR"@, "#2e1052"@)
        .insert("HTML+EEX"@, "#6e4a7e"@)
        .insert("HTML+ERB"@, "#701516"@)
        .insert("HTML+PHP"@, "#4f5d95"@)
        .insert("HTML+Razor"@, "#512be4"@)
        .insert("HTTP"@, "#005C9C"@)
        .insert("HXML"@, "#f68712"@)
        .insert("Hack"@, "#878787"@)
        .insert("Haml"@, "#ece2a9"@)
        .insert("Handlebars"@, "#f7931e"@)
        .insert("Harbour"@, "#0e60e3"@)
        .insert("Haskell"@, "#5e5086"@)
        .insert("Haxe"@, "#df7900"@)
        .insert("HiveQL"@, "#dce200"@)
        .insert("HolyC"@, "#ffefaf"@)
        .insert("Hosts File"@, "#308888"@)
        .insert("Hy"@, "#7790B2"@)
        .insert("IDL"@, "#a3522f"@)
        .insert("IGOR Pro"@, "#0000cc"@)
}

/// Enters the colours of the languages from `Gosu` to `IGOR Pro`.
fn enter_seventh_part(table: &mut TextMap)
    ensures
        final(table)@ == with_seventh_part(old(table)@),
{
    table.insert("Gosu".to_owned(), "#82937f".to_owned());
    table.insert("Grace".to_owned(), "#615f8b".to_owned());
    table.insert("Gradle".to_owned(), "#02303a".to_owned());
    table.insert("Gradle Kotlin DSL".to_owned(), "#02303a".to_owned());
    table.insert("Grammatical Framework".to_owned(), "#ff0000".to_owned());
    table.insert("GraphQL".to_owned(), "#e10098".to_owned());
    table.insert("Graphviz (DOT)".to_owned(), "#2596be".to_owned());
    table.insert("Groovy".to_owned(), "#4298b8".to_owned());
    table.insert("Groovy Server Pages".to_owned(), "#4298b8".to_owned());
    table.insert("HAProxy".to_owned(), "#106da9".to_owned());
    table.insert("HCL".to_owned(), "#844FBA".to_owned());
    table.insert("HLSL".to_owned(), "#aace60".to_owned());
    table.insert("HOCON".to_owned(), "#9ff8ee".to_owned());
    table.insert("HTML".to_owned(), "#e34c26".to_owned());
    table.insert("HTML+ECR".to_owned(), "#2e1052".to_owned());
    table.insert("HTML+EEX".to_owned(), "#6e4a7e".to_owned());
    table.insert("HTML+ERB".to_owned(), "#701516".to_owned());
    table.insert("HTML+PHP".to_owned(), "#4f5d95".to_owned());
    table.insert("HTML+Razor".to_owned(), "#512be4".to_owned());
    table.insert("HTTP".to_owned(), "#005C9C".to_owned());
    table.insert("HXML".to_owned(), "#f68712".to_owned());
    table.insert("Hack".to_owned(), "#878787".to_owned());
    table.insert("Haml".to_owned(), "#ece2a9".to_owned());
    table.insert("Handlebars".to_owned(), "#f7931e".to_owned());
    table.insert("Harbour".to_owned(), "#0e60e3".to_owned());
    table.insert("Haskell".to_owned(), "#5e5086".to_owned());
    table.insert("Haxe".to_owned(), "#df7900".to_owned());
    table.insert("HiveQL".to_owned(), "#dce200".to_owned());
    table.insert("HolyC".to_owned(), "#ffefaf".to_owned());
    table.insert("Hosts File".to_owned(), "#308888".to_owned());
    table.insert("Hy".to_owned(), "#7790B2".to_owned());
    table.insert("IDL".to_owned(), "#a3522f".to_owned());
    table.insert("IGOR Pro".to_owned(), "#0000cc".to_owned());
}

/// `table` with the colours of the languages from `INI` to `Jsonnet`.
pub open spec fn with_eighth_part(table: Map<Seq<char>, Seq<char>>) -> Map<Seq<char>, Seq<char>> {
    table
        .insert("INI"@, "#d1dbe0"@)
        .insert("Idris"@, "#b30000"@)
        .insert("Ignore List"@, "#000000"@)
        .insert("ImageJ Macro"@, "#99AAFF"@)
        .insert("Imba"@, "#16cec6"@)
        .insert("Inno Setup"@, "#264b99"@)
        .insert("Io"@, "#a9188d"@)
        .insert("Ioke"@, "#078193"@)
        .insert("Isabelle"@, "#FEFE00"@)
        .insert("Isabelle ROOT"@, "#FEFE00"@)
        .insert("J"@, "#9EEDFF"@)
        .insert("JAR Manifest"@, "#b07219"@)
        .insert("JCL"@, "#d90e09"@)
        .insert("JFlex"@, "#DBCA00"@)
        .insert("JSON"@, "#292929"@)
        .insert("JSON with Comments"@, "#292929"@)
        .insert("JSON5"@, "#267CB9"@)
        .insert("JSONLD"@, "#0c479c"@)
        .insert("JSONiq"@, "#40d47e"@)
        .insert("Janet"@, "#0886a5"@)
        .insert("Jasmin"@, "#d03600"@)
        .insert("Java"@, "#b07219"@)
        .insert("Java Properties"@, "#2A6277"@)
        .insert("Java Server Pages"@, "#2A6277"@)
        .insert("JavaScript"@, "#f1e05a"@)
        .insert("JavaScript+ERB"@, "#f1e05a"@)
        .insert("Jest Snapshot"@, "#15c213"@)
        .insert("JetBrains MPS"@, "#21D789"@)
        .insert("Jinja"@, "#a52a22"@)
        .insert("Jison"@, "#56b3cb"@)
        .insert("Jison Lex"@, "#56b3cb"@)
        .insert("Jolie"@, "#843179"@)
        .insert("Jsonnet"@, "#0064bd"@)
}

/// Enters the colours of the languages from `INI` to `Jsonnet`.
fn enter_eighth_part(table: &mut TextMap)
    ensures
        final(table)@ == with_eighth_part(old(table)@),
{
    table.insert("INI".to_owned(), "#d1dbe0".to_owned());
    table.insert("Idris".to_owned(), "#b30000".to_owned());
    table.insert("Ignore List".to_owned(), "#000000".to_owned());
    table.insert("ImageJ Macro".to_owned(), "#99AAFF".to_owned());
    table.insert("Imba".to_owned(), "#16cec6".to_owned());
    table.insert("Inno Setup".to_owned(), "#264b99".to_owned());
    table.insert("Io".to_owned(), "#a9188d".to_owned());
    table.insert("Ioke".to_owned(), "#078193".to_owned());
    table.insert("Isabelle".to_owned(), "#FEFE00".to_owned());
    table.insert("Isabelle ROOT".to_owned(), "#FEFE00".to_owned());
    table.insert("J".to_owned(), "#9EEDFF".to_owned());
    table.insert("JAR Manifest".to_owned(), "#b07219".to_owned());
    table.insert("JCL".to_owned(), "#d90e09".to_owned());
    table.insert("JFlex".to_owned(), "#DBCA00".to_owned());
    table.insert("JSON".to_owned(), "#292929".to_owned());
    table.insert("JSON with Comments".to_owned(), "#292929".to_owned());
    table.insert("JSON5".to_owned(), "#267CB9".to_owned());
    table.insert("JSONLD".to_owned(), "#0c479c".to_owned());
    table.insert("JSONiq".to_owned(), "#40d47e".to_owned());
    table.insert("Janet".to_owned(), "#0886a5".to_owned());
    table.insert("Jasmin".to_owned(), "#d03600".to_owned());
    table.insert("Java".to_owned(), "#b07219".to_owned());
    table.insert("Java Properties".to_owned(), "#2A6277".to_owned());
    table.insert("Java Server Pages".to_owned(), "#2A6277".to_owned());
    table.insert("JavaScript".to_owned(), "#f1e05a".to_owned());
    table.insert("JavaScript+ERB".to_owned(), "#f1e05a".to_owned());
    table.insert("Jest Snapshot".to_owned(), "#15c213".to_owned());
    table.insert("JetBrains MPS".to_owned(), "#21D789".to_owned());
    table.insert("Jinja".to_owned(), "#a52a22".to_owned());
    table.insert("Jison".to_owned(), "#56b3cb".to_owned());
    table.insert("Jison Lex".to_owned(), "#56b3cb".to_owned());
    table.insert("Jolie".to_owned(), "#843179".to_owned());
    table.insert("Jsonnet".to_owned(), "#0064bd".to_owned());
}

/// `table` with the colours of the languages from `Julia` to `Luau`.
pub open spec fn with_ninth_part(table: Map<Seq<char>, Seq<char>>) -> Map<Seq<char>, Seq<char>> {
    table
        .insert("Julia"@, "#a270ba"@)
        .insert("Julia REPL"@, "#a270ba"@)
        .insert("Jupyter Notebook"@, "#DA5B0B"@)
        .insert("Just"@, "#384d54"@)
        .insert("KRL"@, "#28430A"@)
        .insert("Kaitai Struct"@, "#773b37"@)
        .insert("KakouneScript"@, "#6f8042"@)
        .insert("KerboScript"@, "#41adf0"@)
        .insert("KiCad Layout"@, "#2f4aab"@)
        .insert("KiCad Legacy Layout"@, "#2f4aab"@)
        .insert("KiCad Schematic"@, "#2f4aab"@)
        .insert("Kotlin"@, "#A97BFF"@)
        .insert("LFE"@, "#4C3023"@)
        .insert("LLVM"@, "#185619"@)
        .insert("LOLCODE"@, "#cc9900"@)
        .insert("LSL"@, "#3d9970"@)
        .insert("LabVIEW"@, "#fede06"@)
        .insert("Lark"@, "#2980B9"@)
        .insert("Lasso"@, "#999999"@)
        .insert("Latte"@, "#f2a542"@)
        .insert("Less"@, "#1d365d"@)
        .insert("Lex"@, "#DBCA00"@)
        .insert("LigoLANG"@, "#0e74ff"@)
        .insert("LilyPond"@, "#9ccc7c"@)
        .insert("Liquid"@, "#67b8de"@)
        .insert("Literate Agda"@, "#315665"@)
        .insert("Literate CoffeeScript"@, "#244776"@)
        .insert("Literate Haskell"@, "#5e5086"@)
        .insert("LiveScript"@, "#499886"@)
        .insert("Logtalk"@, "#295b9a"@)
        .insert("LookML"@, "#652B81"@)
        .insert("Lua"@, "#000080"@)
        .insert("Luau"@, "#00A2FF"@)
}

/// Enters the colours of the languages from `Julia` to `Luau`.
fn enter_ninth_part(table: &mut TextMap)
    ensures
        final(table)@ == with_ninth_part(old(table)@),
{
    table.insert("Julia".to_owned(), "#a270ba".to_owned());
    table.insert("Julia REPL".to_owned(), "#a270ba".to_owned());
    table.insert("Jupyter Notebook".to_owned(), "#DA5B0B".to_owned());
    table.insert("Just".to_owned(), "#384d54".to_owned());
    table.insert("KRL".to_owned(), "#28430A".to_owned());
    table.insert("Kaitai Struct".to_owned(), "#773b37".to_owned());
    table.insert("KakouneScript".to_owned(), "#6f8042".to_owned());
    table.insert("KerboScript".to_owned(), "#41adf0".to_owned());
    table.insert("KiCad Layout".to_owned(), "#2f4aab".to_owned());
    table.insert("KiCad Legacy Layout".to_owned(), "#2f4aab".to_owned());
    table.insert("KiCad Schematic".to_owned(), "#2f4aab".to_owned());
    table.insert("Kotlin".to_owned(), "#A97BFF".to_owned());
    table.insert("LFE".to_owned(), "#4C3023".to_owned());
    table.insert("LLVM".to_owned(), "#185619".to_owned());
    table.insert("LOLCODE".to_owned(), "#cc9900".to_owned());
    table.insert("LSL".to_owned(), "#3d9970".to_owned());
    table.insert("LabVIEW".to_owned(), "#fede06".to_owned());
    table.insert("Lark".to_owned(), "#2980B9".to_owned());
    table.insert("Lasso".to_owned(), "#999999".to_owned());
    table.insert("Latte".to_owned(), "#f2a542".to_owned());
    table.insert("Less".to_owned(), "#1d365d".to_owned());
    table.insert("Lex".to_owned(), "#DBCA00".to_owned());
    table.insert("LigoLANG".to_owned(), "#0e74ff".to_owned());
    table.insert("LilyPond".to_owned(), "#9ccc7c".to_owned());
    table.insert("Liquid".to_owned(), "#67b8de".to_owned());
    table.insert("Literate Agda".to_owned(), "#315665".to_owned());
    table.insert("Literate CoffeeScript".to_owned(), "#244776".to_owned());
    table.insert("Literate Haskell".to_owned(), "#5e5086".to_owned());
    table.insert("LiveScript".to_owned(), "#499886".to_owned());
    table.insert("Logtalk".to_owned(), "#295b9a".to_owned());
    table.insert("LookML".to_owned(), "#652B81".to_owned());
    table.insert("Lua".to_owned(), "#000080".to_owned());
    table.insert("Luau".to_owned(), "#00A2FF".to_owned());
}

/// `table` with the colours of the languages from `MATLAB` to `NCL`.
pub open spec fn with_tenth_part(table: Map<Seq<char>, Seq<char>>) -> Map<Seq<char>, Seq<char>> {
    table
        .insert("MATLAB"@, "#e16737"@)
        .insert("MAXScript"@, "#00a6a6"@)
        .insert("MDX"@, "#fcb32c"@)
        .insert("MLIR"@, "#5EC8DB"@)
        .insert("MQL4"@, "#62A8D6"@)
        .insert("MQL5"@, "#4A76B8"@)
        .insert("MTML"@, "#b7e1f4"@)
        .insert("Macaulay2"@, "#d8ffff"@)
        .insert("Makefile"@, "#427819"@)
        .insert("Mako"@, "#7e858d"@)
        .insert("Markdown"@, "#083fa1"@)
        .insert("Marko"@, "#42bff2"@)
        .insert("Mask"@, "#f97732"@)
        .insert("Mathematica"@, "#dd1100"@)
        .insert("Max"@, "#c4a79c"@)
        .insert("Mercury"@, "#ff2b2b"@)
        .insert("Mermaid"@, "#ff3670"@)
        .insert("Meson"@, "#007800"@)
        .insert("Metal"@, "#8f14e9"@)
        .insert("MiniYAML"@, "#ff1111"@)
        .insert("Mint"@, "#02b046"@)
        .insert("Mirah"@, "#c7a938"@)
        .insert("Modelica"@, "#de1d31"@)
        .insert("Modula-2"@, "#10253f"@)
        .insert("Modula-3"@, "#223388"@)
        .insert("Mojo"@, "#ff4c1f"@)
        .insert("Monkey C"@, "#8D6747"@)
        .insert("MoonScript"@, "#ff4585"@)
        .insert("Motoko"@, "#fbb03b"@)
        .insert("Motorola 68K Assembly"@, "#005daa"@)
        .insert("Move"@, "#4a137a"@)
        .insert("Mustache"@, "#724b3b"@)
        .insert("NCL"@, "#28431f"@)
}

/// Enters the colours of the languages from `MATLAB` to `NCL`.
fn enter_tenth_part(table: &mut TextMap)
    ensures
        final(table)@ == with_tenth_part(old(table)@),
{
    table.insert("MATLAB".to_owned(), "#e16737".to_owned());
    table.insert("MAXScript".to_owned(), "#00a6a6".to_owned());
    table.insert("MDX".to_owned(), "#fcb32c".to_owned());
    table.insert("MLIR".to_owned(), "#5EC8DB".to_owned());
    table.insert("MQL4".to_owned(), "#62A8D6".to_owned());
    table.insert("MQL5".to_owned(), "#4A76B8".to_owned());
    table.insert("MTML".to_owned(), "#b7e1f4".to_owned());
    table.insert("Macaulay2".to_owned(), "#d8ffff".to_owned());
    table.insert("Makefile".to_owned(), "#427819".to_owned());
    table.insert("Mako".to_owned(), "#7e858d".to_owned());
    table.insert("Markdown".to_owned(), "#083fa1".to_owned());
    table.insert("Marko".to_owned(), "#42bff2".to_owned());
    table.insert("Mask".to_owned(), "#f97732".to_owned());
    table.insert("Mathematica".to_owned(), "#dd1100".to_owned());
    table.insert("Max".to_owned(), "#c4a79c".to_owned());
    table.insert("Mercury".to_owned(), "#ff2b2b".to_owned());
    table.insert("Mermaid".to_owned(), "#ff3670".to_owned());
    table.insert("Meson".to_owned(), "#007800".to_owned());
    table.insert("Metal".to_owned(), "#8f14e9".to_owned());
    table.insert("MiniYAML".to_owned(), "#ff1111".to_owned());
    table.insert("Mint".to_owned(), "#02b046".to_owned());
    table.insert("Mirah".to_owned(), "#c7a938".to_owned());
    table.insert("Modelica".to_owned(), "#de1d31".to_owned());
    table.insert("Modula-2".to_owned(), "#10253f".to_owned());
    table.insert("Modula-3".to_owned(), "#223388".to_owned());
    table.insert("Mojo".to_owned(), "#ff4c1f".to_owned());
    table.insert("Monkey C".to_owned(), "#8D6747".to_owned());
    table.insert("MoonScript".to_owned(), "#ff4585".to_owned());
    table.insert("Motoko".to_owned(), "#fbb03b".to_owned());
    table.insert("Motorola 68K Assembly".to_owned(), "#005daa".to_owned());
    table.insert("Move".to_owned(), "#4a137a".to_owned());
    table.insert("Mustache".to_owned(), "#724b3b".to_owned());
    table.insert("NCL".to_owned(), "#28431f".to_owned());
}

/// `table` with the colours of the languages from `NMODL` to `OpenAPI Specification v2`.
pub open spec fn with_eleventh_part(table: Map<Seq<char>, Seq<char>>) -> Map<Seq<char>, Seq<char>> {
    table
        .insert("NMODL"@, "#00356B"@)
        .insert("NPM Config"@, "#cb3837"@)
        .insert("NWScript"@, "#111522"@)
        .insert("Nasal"@, "#1d2c4e"@)
        .insert("Nearley"@, "#990000"@)
        .insert("Nemerle"@, "#3d3c6e"@)
        .insert("NetLinx"@, "#0aa0ff"@)
        .insert("NetLinx+ERB"@, "#747faa"@)
        .insert("NetLogo"@, "#ff6375"@)
        .insert("NewLisp"@, "#87AED7"@)
        .insert("Nextflow"@, "#3ac486"@)
        .insert("Nginx"@, "#009639"@)
        .insert("Nim"@, "#ffc200"@)
        .insert("Nit"@, "#009917"@)
        .insert("Nix"@, "#7e7eff"@)
        .insert("Nu"@, "#c9df40"@)
        .insert("NumPy"@, "#9C8AF9"@)
        .insert("Nunjucks"@, "#3d8137"@)
        .insert("Nushell"@, "#4E9906"@)
        .insert("OASv2-json"@, "#85ea2d"@)
        .insert("OASv2-yaml"@, "#85ea2d"@)
        .insert("OASv3-json"@, "#85ea2d"@)
        .insert("OASv3-yaml"@, "#85ea2d"@)
        .insert("OCaml"@, "#ef7a08"@)
        .insert("ObjectScript"@, "#424893"@)
        .insert("Objective-C"@, "#438eff"@)
        .insert("Objective-C++"@, "#6866fb"@)
        .insert("Objective-J"@, "#ff0c5a"@)
        .insert("Odin"@, "#60AFFE"@)
        .insert("Omgrofl"@, "#cabbff"@)
        .insert("Opal"@, "#f7ede0"@)
        .insert("Open Policy Agent"@, "#7d9199"@)
        .insert("OpenAPI Specification v2"@, "#85ea2d"@)
}

/// Enters the colours of the languages from `NMODL` to `OpenAPI Specification v2`.
fn enter_eleventh_part(table: &mut TextMap)
    ensures
        final(table)@ == with_eleventh_part(old(table)@),
{
    table.insert("NMODL".to_owned(), "#00356B".to_owned());
    table.insert("NPM Config".to_owned(), "#cb3837".to_owned());
    table.insert("NWScript".to_owned(), "#111522".to_owned());
    table.insert("Nasal".to_owned(), "#1d2c4e".to_owned());
    table.insert("Nearley".to_owned(), "#990000".to_owned());
    table.insert("Nemerle".to_owned(), "#3d3c6e".to_owned());
    table.insert("NetLinx".to_owned(), "#0aa0ff".to_owned());
    table.insert("NetLinx+ERB".to_owned(), "#747faa".to_owned());
    table.insert("NetLogo".to_owned(), "#ff6375".to_owned());
    table.insert("NewLisp".to_owned(), "#87AED7".to_owned());
    table.insert("Nextflow".to_owned(), "#3ac486".to_owned());
    table.insert("Nginx".to_owned(), "#009639".to_owned());
    table.insert("Nim".to_owned(), "#ffc200".to_owned());
    table.insert("Nit".to_owned(), "#009917".to_owned());
    table.insert("Nix".to_owned(), "#7e7eff".to_owned());
    table.insert("Nu".to_owned(), "#c9df40".to_owned());
    table.insert("NumPy".to_owned(), "#9C8AF9".to_owned());
    table.insert("Nunjucks".to_owned(), "#3d8137".to_owned());
    table.insert("Nushell".to_owned(), "#4E9906".to_owned());
    table.insert("OASv2-json".to_owned(), "#85ea2d".to_owned());
    table.insert("OASv2-yaml".to_owned(), "#85ea2d".to_owned());
    table.insert("OASv3-json".to_owned(), "#85ea2d".to_owned());
    table.insert("OASv3-yaml".to_owned(), "#85ea2d".to_owned());
    table.insert("OCaml".to_owned(), "#ef7a08".to_owned());
    table.insert("ObjectScript".to_owned(), "#424893".to_owned());
    table.insert("Objective-C".to_owned(), "#438eff".to_owned());
    table.insert("Objective-C++".to_owned(), "#6866fb".to_owned());
    table.insert("Objective-J".to_owned(), "#ff0c5a".to_owned());
    table.insert("Odin".to_owned(), "#60AFFE".to_owned());
    table.insert("Omgrofl".to_owned(), "#cabbff".to_owned());
    table.insert("Opal".to_owned(), "#f7ede0".to_owned());
    table.insert("Open Policy Agent".to_owned(), "#7d9199".to_owned());
    table.insert("OpenAPI Specification v2".to_owned(), "#85ea2d".to_owned());
}

/// `table` with the colours of the languages from `OpenAPI Specification v3` to `Portugol`.
pub open spec fn with_twelfth_part(table: Map<Seq<char>, Seq<char>>) -> Map<Seq<char>, Seq<char>> {
    table
        .insert("OpenAPI Specification v3"@, "#85ea2d"@)
        .insert("OpenCL"@, "#ed2e2d"@)
        .insert("OpenEdge ABL"@, "#5ce600"@)
        .insert("OpenQASM"@, "#AA70FF"@)
        .insert("OpenSCAD"@, "#e5cd45"@)
        .insert("Option List"@, "#476732"@)
        .insert("Org"@, "#77aa99"@)
        .insert("Oxygene"@, "#cdd0e3"@)
        .insert("Oz"@, "#fab738"@)
        .insert("P4"@, "#7055b5"@)
        .insert("PDDL"@, "#0d00ff"@)
        .insert("PEG.js"@, "#234d6b"@)
        .insert("PHP"@, "#4F5D95"@)
        .insert("PLSQL"@, "#dad8d8"@)
        .insert("PLpgSQL"@, "#336790"@)
        .insert("POV-Ray SDL"@, "#6bac65"@)
        .insert("Pact"@, "#F7A8B8"@)
        .insert("Pan"@, "#cc0000"@)
        .insert("Papyrus"@, "#6600cc"@)
        .insert("Parrot"@, "#f3ca0a"@)
        .insert("Pascal"@, "#E3F171"@)
        .insert("Pawn"@, "#dbb284"@)
        .insert("Pep8"@, "#C76F5B"@)
        .insert("Perl"@, "#0298c3"@)
        .insert("PicoLisp"@, "#6067af"@)
        .insert("PigLatin"@, "#fcd7de"@)
        .insert("Pike"@, "#005390"@)
        .insert("Pip Requirements"@, "#FFD343"@)
        .insert("Pkl"@, "#6b9543"@)
        .insert("PlantUML"@, "#fbbd16"@)
        .insert("PogoScript"@, "#d80074"@)
        .insert("Polar"@, "#ae81ff"@)
        .insert("Portugol"@, "#f8bd00"@)
}

/// Enters the colours of the languages from `OpenAPI Specification v3` to `Portugol`.
fn enter_twelfth_part(table: &mut TextMap)
    ensures
        final(table)@ == with_twelfth_part(old(table)@),
{
    table.insert("OpenAPI Specification v3".to_owned(), "#85ea2d".to_owned());
    table.insert("OpenCL".to_owned(), "#ed2e2d".to_owned());
    table.insert("OpenEdge ABL".to_owned(), "#5ce600".to_owned());
    table.insert("OpenQASM".to_owned(), "#AA70FF".to_owned());
    table.insert("OpenSCAD".to_owned(), "#e5cd45".to_owned());
    table.insert("Option List".to_owned(), "#476732".to_owned());
    table.insert("Org".to_owned(), "#77aa99".to_owned());
    table.insert("Oxygene".to_owned(), "#cdd0e3".to_owned());
    table.insert("Oz".to_owned(), "#fab738".to_owned());
    table.insert("P4".to_owned(), "#7055b5".to_owned());
    table.insert("PDDL".to_owned(), "#0d00ff".to_owned());
    table.insert("PEG.js".to_owned(), "#234d6b".to_owned());
    table.insert("PHP".to_owned(), "#4F5D95".to_owned());
    table.insert("PLSQL".to_owned(), "#dad8d8".to_owned());
    table.insert("PLpgSQL".to_owned(), "#336790".to_owned());
    table.insert("POV-Ray SDL".to_owned(), "#6bac65".to_owned());
    table.insert("Pact".to_owned(), "#F7A8B8".to_owned());
    table.insert("Pan".to_owned(), "#cc0000".to_owned());
    table.insert("Papyrus".to_owned(), "#6600cc".to_owned());
    table.insert("Parrot".to_owned(), "#f3ca0a".to_owned());
    table.insert("Pascal".to_owned(), "#E3F171".to_owned());
    table.insert("Pawn".to_owned(), "#dbb284".to_owned());
    table.insert("Pep8".to_owned(), "#C76F5B".to_owned());
    table.insert("Perl".to_owned(), "#0298c3".to_owned());
    table.insert("PicoLisp".to_owned(), "#6067af".to_owned());
    table.insert("PigLatin".to_owned(), "#fcd7de".to_owned());
    table.insert("Pike".to_owned(), "#005390".to_owned());
    table.insert("Pip Requirements".to_owned(), "#FFD343".to_owned());
    table.insert("Pkl".to_owned(), "#6b9543".to_owned());
    table.insert("PlantUML".to_owned(), "#fbbd16".to_owned());
    table.insert("PogoScript".to_owned(), "#d80074".to_owned());
    table.insert("Polar".to_owned(), "#ae81ff".to_owned());
    table.insert("Portugol".to_owned(), "#f8bd00".to_owned());
}

/// `table` with the colours of the languages from `PostCSS` to `Racket`.
pub open spec fn with_thirteenth_part(table: Map<Seq<char>, Seq<char>>) -> Map<Seq<char>, Seq<char>> {
    table
        .insert("PostCSS"@, "#dc3a0c"@)
        .insert("PostScript"@, "#da291c"@)
        .insert("PowerBuilder"@, "#8f0f8d"@)
        .insert("PowerShell"@, "#012456"@)
        .insert("Praat"@, "#c8506d"@)
        .insert("Prisma"@, "#0c344b"@)
        .insert("Processing"@, "#0096D8"@)
        .insert("Procfile"@, "#3B2F63"@)
        .insert("Prolog"@, "#74283c"@)
        .insert("Promela"@, "#de0000"@)
        .insert("Propeller Spin"@, "#7fa2a7"@)
        .insert("Pug"@, "#a86454"@)
        .insert("Puppet"@, "#302B6D"@)
        .insert("PureBasic"@, "#5a6986"@)
        .insert("PureScript"@, "#1D222D"@)
        .insert("Pyret"@, "#ee1e10"@)
        .insert("Python"@, "#3572A5"@)
        .insert("Python console"@, "#3572A5"@)
        .insert("Python traceback"@, "#3572A5"@)
        .insert("Q#"@, "#fed659"@)
        .insert("QML"@, "#44a51c"@)
        .insert("Qt Script"@, "#00b841"@)
        .insert("Quake"@, "#882233"@)
        .insert("R"@, "#198CE7"@)
        .insert("RAML"@, "#77d9fb"@)
        .insert("RBS"@, "#701516"@)
        .insert("RDoc"@, "#701516"@)
        .insert("REXX"@, "#d90e09"@)
        .insert("RMarkdown"@, "#198ce7"@)
        .insert("RON"@, "#a62c00"@)
        .insert("RPGLE"@, "#2BDE21"@)
        .insert("RUNOFF"@, "#665a4e"@)
        .insert("Racket"@, "#3c5caa"@)
}

/// Enters the colours of the languages from `PostCSS` to `Racket`.
fn enter_thirteenth_part(table: &mut TextMap)
    ensures
        final(table)@ == with_thirteenth_part(old(table)@),
{
    table.insert("PostCSS".to_owned(), "#dc3a0c".to_owned());
    table.insert("PostScript".to_owned(), "#da291c".to_owned());
    table.insert("PowerBuilder".to_owned(), "#8f0f8d".to_owned());
    table.insert("PowerShell".to_owned(), "#012456".to_owned());
    table.insert("Praat".to_owned(), "#c8506d".to_owned());
    table.insert("Prisma".to_owned(), "#0c344b".to_owned());
    table.insert("Processing".to_owned(), "#0096D8".to_owned());
    table.insert("Procfile".to_owned(), "#3B2F63".to_owned());
    table.insert("Prolog".to_owned(), "#74283c".to_owned());
    table.insert("Promela".to_owned(), "#de0000".to_owned());
    table.insert("Propeller Spin".to_owned(), "#7fa2a7".to_owned());
    table.insert("Pug".to_owned(), "#a86454".to_owned());
    table.insert("Puppet".to_owned(), "#302B6D".to_owned());
    table.insert("PureBasic".to_owned(), "#5a6986".to_owned());
    table.insert("PureScript".to_owned(), "#1D222D".to_owned());
    table.insert("Pyret".to_owned(), "#ee1e10".to_owned());
    table.insert("Python".to_owned(), "#3572A5".to_owned());
    table.insert("Python console".to_owned(), "#3572A5".to_owned());
    table.insert("Python traceback".to_owned(), "#3572A5".to_owned());
    table.insert("Q#".to_owned(), "#fed659".to_owned());
    table.insert("QML".to_owned(), "#44a51c".to_owned());
    table.insert("Qt Script".to_owned(), "#00b841".to_owned());
    table.insert("Quake".to_owned(), "#882233".to_owned());
    table.insert("R".to_owned(), "#198CE7".to_owned());
    table.insert("RAML".to_owned(), "#77d9fb".to_owned());
    table.insert("RBS".to_owned(), "#701516".to_owned());
    table.insert("RDoc".to_owned(), "#701516".to_owned());
    table.insert("REXX".to_owned(), "#d90e09".to_owned());
    table.insert("RMarkdown".to_owned(), "#198ce7".to_owned());
    table.insert("RON".to_owned(), "#a62c00".to_owned());
    table.insert("RPGLE".to_owned(), "#2BDE21".to_owned());
    table.insert("RUNOFF".to_owned(), "#665a4e".to_owned());
    table.insert("Racket".to_owned(), "#3c5caa".to_owned());
}

/// `table` with the colours of the languages from `Ragel` to `Sass`.
pub open spec fn with_fourteenth_part(table: Map<Seq<char>, Seq<char>>) -> Map<Seq<char>, Seq<char>> {
    table
        .insert("Ragel"@, "#9d5200"@)
        .insert("Raku"@, "#0000fb"@)
        .insert("Rascal"@, "#fffaa0"@)
        .insert("ReScript"@, "#ed5051"@)
        .insert("Reason"@, "#ff5847"@)
        .insert("ReasonLIGO"@, "#ff5847"@)
        .insert("Rebol"@, "#358a5b"@)
        .insert("Record Jar"@, "#0673ba"@)
        .insert("Red"@, "#f50000"@)
        .insert("Regular Expression"@, "#009a00"@)
        .insert("Ren'Py"@, "#ff7f7f"@)
        .insert("Rez"@, "#FFDAB3"@)
        .insert("Ring"@, "#2D54CB"@)
        .insert("Riot"@, "#A71E49"@)
        .insert("RobotFramework"@, "#00c0b5"@)
        .insert("Roc"@, "#7c38f5"@)
        .insert("Roff"@, "#ecdebe"@)
        .insert("Roff Manpage"@, "#ecdebe"@)
        .insert("Rouge"@, "#cc0088"@)
        .insert("RouterOS Script"@, "#DE3941"@)
        .insert("Ruby"@, "#701516"@)
        .insert("Rust"@, "#dea584"@)
        .insert("SAS"@, "#B34936"@)
        .insert("SCSS"@, "#c6538c"@)
        .insert("SPARQL"@, "#0C4597"@)
        .insert("SQF"@, "#3F3F3F"@)
        .insert("SQL"@, "#e38c00"@)
        .insert("SQLPL"@, "#e38c00"@)
        .insert("SRecode Template"@, "#348a34"@)
        .insert("STL"@, "#373b5e"@)
        .insert("SVG"@, "#ff9900"@)
        .insert("SaltStack"@, "#646464"@)
        .insert("Sass"@, "#a53b70"@)
}

/// Enters the colours of the languages from `Ragel` to `Sass`.
fn enter_fourteenth_part(table: &mut TextMap)
    ensures
        final(table)@ == with_fourteenth_part(old(table)@),
{
    table.insert("Ragel".to_owned(), "#9d5200".to_owned());
    table.insert("Raku".to_owned(), "#0000fb".to_owned());
    table.insert("Rascal".to_owned(), "#fffaa0".to_owned());
    table.insert("ReScript".to_owned(), "#ed5051".to_owned());
    table.insert("Reason".to_owned(), "#ff5847".to_owned());
    table.insert("ReasonLIGO".to_owned(), "#ff5847".to_owned());
    table.insert("Rebol".to_owned(), "#358a5b".to_owned());
    table.insert("Record Jar".to_owned(), "#0673ba".to_owned());
    table.insert("Red".to_owned(), "#f50000".to_owned());
    table.insert("Regular Expression".to_owned(), "#009a00".to_owned());
    table.insert("Ren'Py".to_owned(), "#ff7f7f".to_owned());
    table.insert("Rez".to_owned(), "#FFDAB3".to_owned());
    table.insert("Ring".to_owned(), "#2D54CB".to_owned());
    table.insert("Riot".to_owned(), "#A71E49".to_owned());
    table.insert("RobotFramework".to_owned(), "#00c0b5".to_owned());
    table.insert("Roc".to_owned(), "#7c38f5".to_owned());
    table.insert("Roff".to_owned(), "#ecdebe".to_owned());
    table.insert("Roff Manpage".to_owned(), "#ecdebe".to_owned());
    table.insert("Rouge".to_owned(), "#cc0088".to_owned());
    table.insert("RouterOS Script".to_owned(), "#DE3941".to_owned());
    table.insert("Ruby".to_owned(), "#701516".to_owned());
    table.insert("Rust".to_owned(), "#dea584".to_owned());
    table.insert("SAS".to_owned(), "#B34936".to_owned());
    table.insert("SCSS".to_owned(), "#c6538c".to_owned());
    table.insert("SPARQL".to_owned(), "#0C4597".to_owned());
    table.insert("SQF".to_owned(), "#3F3F3F".to_owned());
    table.insert("SQL".to_owned(), "#e38c00".to_owned());
    table.insert("SQLPL".to_owned(), "#e38c00".to_owned());
    table.insert("SRecode Template".to_owned(), "#348a34".to_owned());
    table.insert("STL".to_owned(), "#373b5e".to_owned());
    table.insert("SVG".to_owned(), "#ff9900".to_owned());
    table.insert("SaltStack".to_owned(), "#646464".to_owned());
    table.insert("Sass".to_owned(), "#a53b70".to_owned());
}

/// `table` with the colours of the languages from `Scala` to `SuperCollider`.
pub open spec fn with_fifteenth_part(table: Map<Seq<char>, Seq<char>>) -> Map<Seq<char>, Seq<char>> {
    table
        .insert("Scala"@, "#c22d40"@)
        .insert("Scaml"@, "#bd181a"@)
        .insert("Scenic"@, "#fdc700"@)
        .insert("Scheme"@, "#1e4aec"@)
        .insert("Scilab"@, "#ca0f21"@)
        .insert("Self"@, "#0579aa"@)
        .insert("ShaderLab"@, "#222c37"@)
        .insert("Shell"@, "#89e051"@)
        .insert("ShellCheck Config"@, "#cecfcb"@)
        .insert("Shen"@, "#120F14"@)
        .insert("Simple File Verification"@, "#C9BFED"@)
        .insert("Singularity"@, "#64E6AD"@)
        .insert("Slash"@, "#007eff"@)
        .insert("Slice"@, "#003fa2"@)
        .insert("Slim"@, "#2b2b2b"@)
        .insert("Slint"@, "#2379F4"@)
        .insert("SmPL"@, "#c94949"@)
        .insert("Smalltalk"@, "#596706"@)
        .insert("Smarty"@, "#f0c040"@)
        .insert("Smithy"@, "#c44536"@)
        .insert("Snakemake"@, "#419179"@)
        .insert("Solidity"@, "#AA6746"@)
        .insert("SourcePawn"@, "#f69e1d"@)
        .insert("Squirrel"@, "#800000"@)
        .insert("Stan"@, "#b2011d"@)
        .insert("Standard ML"@, "#dc566d"@)
        .insert("Starlark"@, "#76d275"@)
        .insert("Stata"@, "#1a5f91"@)
        .insert("StringTemplate"@, "#3fb34f"@)
        .insert("Stylus"@, "#ff6347"@)
        .insert("SubRip Text"@, "#9e0101"@)
        .insert("SugarSS"@, "#2fcc9f"@)
        .insert("SuperCollider"@, "#46390b"@)
}

/// Enters the colours of the languages from `Scala` to `SuperCollider`.
fn enter_fifteenth_part(table: &mut TextMap)
    ensures
        final(table)@ == with_fifteenth_part(old(table)@),
{
    table.insert("Scala".to_owned(), "#c22d40".to_owned());
    table.insert("Scaml".to_owned(), "#bd181a".to_owned());
    table.insert("Scenic".to_owned(), "#fdc700".to_owned());
    table.insert("Scheme".to_owned(), "#1e4aec".to_owned());
    table.insert("Scilab".to_owned(), "#ca0f21".to_owned());
    table.insert("Self".to_owned(), "#0579aa".to_owned());
    table.insert("ShaderLab".to_owned(), "#222c37".to_owned());
    table.insert("Shell".to_owned(), "#89e051".to_owned());
    table.insert("ShellCheck Config".to_owned(), "#cecfcb".to_owned());
    table.insert("Shen".to_owned(), "#120F14".to_owned());
    table.insert("Simple File Verification".to_owned(), "#C9BFED".to_owned());
    table.insert("Singularity".to_owned(), "#64E6AD".to_owned());
    table.insert("Slash".to_owned(), "#007eff".to_owned());
    table.insert("Slice".to_owned(), "#003fa2".to_owned());
    table.insert("Slim".to_owned(), "#2b2b2b".to_owned());
    table.insert("Slint".to_owned(), "#2379F4".to_owned());
    table.insert("SmPL".to_owned(), "#c94949".to_owned());
    table.insert("Smalltalk".to_owned(), "#596706".to_owned());
    table.insert("Smarty".to_owned(), "#f0c040".to_owned());
    table.insert("Smithy".to_owned(), "#c44536".to_owned());
    table.insert("Snakemake".to_owned(), "#419179".to_owned());
    table.insert("Solidity".to_owned(), "#AA6746".to_owned());
    table.insert("SourcePawn".to_owned(), "#f69e1d".to_owned());
    table.insert("Squirrel".to_owned(), "#800000".to_owned());
    table.insert("Stan".to_owned(), "#b2011d".to_owned());
    table.insert("Standard ML".to_owned(), "#dc566d".to_owned());
    table.insert("Starlark".to_owned(), "#76d275".to_owned());
    table.insert("Stata".to_owned(), "#1a5f91".to_owned());
    table.insert("StringTemplate".to_owned(), "#3fb34f".to_owned());
    table.insert("Stylus".to_owned(), "#ff6347".to_owned());
    table.insert("SubRip Text".to_owned(), "#9e0101".to_owned());
    table.insert("SugarSS".to_owned(), "#2fcc9f".to_owned());
    table.insert("SuperCollider".to_owned(), "#46390b".to_owned());
}

/// `table` with the colours of the languages from `Svelte` to `V`.
pub open spec fn with_sixteenth_part(table: Map<Seq<char>, Seq<char>>) -> Map<Seq<char>, Seq<char>> {
    table
        .insert("Svelte"@, "#ff3e00"@)
        .insert("Sway"@, "#00F58C"@)
        .insert("Sweave"@, "#198ce7"@)
        .insert("Swift"@, "#F05138"@)
        .insert("SystemVerilog"@, "#DAE1C2"@)
        .insert("TI Program"@, "#A0AA87"@)
        .insert("TL-Verilog"@, "#C40023"@)
        .insert("TLA"@, "#4b0079"@)
        .insert("TOML"@, "#9c4221"@)
        .insert("TSQL"@, "#e38c00"@)
        .insert("TSV"@, "#237346"@)
        .insert("TSX"@, "#3178c6"@)
        .insert("TXL"@, "#0178b8"@)
        .insert("Talon"@, "#333333"@)
        .insert("Tcl"@, "#e4cc98"@)
        .insert("TeX"@, "#3D6117"@)
        .insert("Terra"@, "#00004c"@)
        .insert("Terraform Template"@, "#7b42bb"@)
        .insert("TextGrid"@, "#c8506d"@)
        .insert("TextMate Properties"@, "#df66e4"@)
        .insert("Textile"@, "#ffe7ac"@)
        .insert("Thrift"@, "#D12127"@)
        .insert("Toit"@, "#c2c9fb"@)
        .insert("Turing"@, "#cf142b"@)
        .insert("Twig"@, "#c1d026"@)
        .insert("TypeScript"@, "#3178c6"@)
        .insert("Typst"@, "#239dad"@)
        .insert("Unified Parallel C"@, "#4e3617"@)
        .insert("Unity3D Asset"@, "#222c37"@)
        .insert("Uno"@, "#9933cc"@)
        .insert("UnrealScript"@, "#a54c4d"@)
        .insert("UrWeb"@, "#ccccee"@)
        .insert("V"@, "#4f87c4"@)
}

/// Enters the colours of the languages from `Svelte` to `V`.
fn enter_sixteenth_part(table: &mut TextMap)
    ensures
        final(table)@ == with_sixteenth_part(old(table)@),
{
    table.insert("Svelte".to_owned(), "#ff3e00".to_owned());
    table.insert("Sway".to_owned(), "#00F58C".to_owned());
    table.insert("Sweave".to_owned(), "#198ce7".to_owned());
    table.insert("Swift".to_owned(), "#F05138".to_owned());
    table.insert("SystemVerilog".to_owned(), "#DAE1C2".to_owned());
    table.insert("TI Program".to_owned(), "#A0AA87".to_owned());
    table.insert("TL-Verilog".to_owned(), "#C40023".to_owned());
    table.insert("TLA".to_owned(), "#4b0079".to_owned());
    table.insert("TOML".to_owned(), "#9c4221".to_owned());
    table.insert("TSQL".to_owned(), "#e38c00".to_owned());
    table.insert("TSV".to_owned(), "#237346".to_owned());
    table.insert("TSX".to_owned(), "#3178c6".to_owned());
    table.insert("TXL".to_owned(), "#0178b8".to_owned());
    table.insert("Talon".to_owned(), "#333333".to_owned());
    table.insert("Tcl".to_owned(), "#e4cc98".to_owned());
    table.insert("TeX".to_owned(), "#3D6117".to_owned());
    table.insert("Terra".to_owned(), "#00004c".to_owned());
    table.insert("Terraform Template".to_owned(), "#7b42bb".to_owned());
    table.insert("TextGrid".to_owned(), "#c8506d".to_owned());
    table.insert("TextMate Properties".to_owned(), "#df66e4".to_owned());
    table.insert("Textile".to_owned(), "#ffe7ac".to_owned());
    table.insert("Thrift".to_owned(), "#D12127".to_owned());
    table.insert("Toit".to_owned(), "#c2c9fb".to_owned());
    table.insert("Turing".to_owned(), "#cf142b".to_owned());
    table.insert("Twig".to_owned(), "#c1d026".to_owned());
    table.insert("TypeScript".to_owned(), "#3178c6".to_owned());
    table.insert("Typst".to_owned(), "#239dad".to_owned());
    table.insert("Unified Parallel C".to_owned(), "#4e3617".to_owned());
    table.insert("Unity3D Asset".to_owned(), "#222c37".to_owned());
    table.insert("Uno".to_owned(), "#9933cc".to_owned());
    table.insert("UnrealScript".to_owned(), "#a54c4d".to_owned());
    table.insert("UrWeb".to_owned(), "#ccccee".to_owned());
    table.insert("V".to_owned(), "#4f87c4".to_owned());
}

/// `table` with the colours of the languages from `VBA` to `XQuery`.
pub open spec fn with_seventeenth_part(table: Map<Seq<char>, Seq<char>>) -> Map<Seq<char>, Seq<char>> {
    table
        .insert("VBA"@, "#867db1"@)
        .insert("VBScript"@, "#15dcdc"@)
        .insert("VCL"@, "#148AA8"@)
        .insert("VHDL"@, "#adb2cb"@)
        .insert("Vala"@, "#a56de2"@)
        .insert("Valve Data Format"@, "#f26025"@)
        .insert("Velocity Template Language"@, "#507cff"@)
        .insert("Verilog"@, "#b2b7f8"@)
        .insert("Vim Help File"@, "#199f4b"@)
        .insert("Vim Script"@, "#199f4b"@)
        .insert("Vim Snippet"@, "#199f4b"@)
        .insert("Visual Basic .NET"@, "#945db7"@)
        .insert("Visual Basic 6.0"@, "#2c6353"@)
        .insert("Volt"@, "#1F1F1F"@)
        .insert("Vue"@, "#41b883"@)
        .insert("Vyper"@, "#2980b9"@)
        .insert("WDL"@, "#42f1f4"@)
        .insert("WGSL"@, "#1a5e9a"@)
        .insert("Web Ontology Language"@, "#5b70bd"@)
        .insert("WebAssembly"@, "#04133b"@)
        .insert("WebAssembly Interface Type"@, "#6250e7"@)
        .insert("Whiley"@, "#d5c397"@)
        .insert("Wikitext"@, "#fc5757"@)
        .insert("Windows Registry Entries"@, "#52d5ff"@)
        .insert("Witcher Script"@, "#ff0000"@)
        .insert("Wollok"@, "#a23738"@)
        .insert("World of Warcraft Addon Data"@, "#f7e43f"@)
        .insert("Wren"@, "#383838"@)
        .insert("X10"@, "#4B6BEF"@)
        .insert("XC"@, "#99DA07"@)
        .insert("XML"@, "#0060ac"@)
        .insert("XML Property List"@, "#0060ac"@)
        .insert("XQuery"@, "#5232e7"@)
}

/// Enters the colours of the languages from `VBA` to `XQuery`.
fn enter_seventeenth_part(table: &mut TextMap)
    ensures
        final(table)@ == with_seventeenth_part(old(table)@),
{
    table.insert("VBA".to_owned(), "#867db1".to_owned());
    table.insert("VBScript".to_owned(), "#15dcdc".to_owned());
    table.insert("VCL".to_owned(), "#148AA8".to_owned());
    table.insert("VHDL".to_owned(), "#adb2cb".to_owned());
    table.insert("Vala".to_owned(), "#a56de2".to_owned());
    table.insert("Valve Data Format".to_owned(), "#f26025".to_owned());
    table.insert("Velocity Template Language".to_owned(), "#507cff".to_owned());
    table.insert("Verilog".to_owned(), "#b2b7f8".to_owned());
    table.insert("Vim Help File".to_owned(), "#199f4b".to_owned());
    table.insert("Vim Script".to_owned(), "#199f4b".to_owned());
    table.insert("Vim Snippet".to_owned(), "#199f4b".to_owned());
    table.insert("Visual Basic .NET".to_owned(), "#945db7".to_owned());
    table.insert("Visual Basic 6.0".to_owned(), "#2c6353".to_owned());
    table.insert("Volt".to_owned(), "#1F1F1F".to_owned());
    table.insert("Vue".to_owned(), "#41b883".to_owned());
    table.insert("Vyper".to_owned(), "#2980b9".to_owned());
    table.insert("WDL".to_owned(), "#42f1f4".to_owned());
    table.insert("WGSL".to_owned(), "#1a5e9a".to_owned());
    table.insert("Web Ontology Language".to_owned(), "#5b70bd".to_owned());
    table.insert("WebAssembly".to_owned(), "#04133b".to_owned());
    table.insert("WebAssembly Interface Type".to_owned(), "#6250e7".to_owned());
    table.insert("Whiley".to_owned(), "#d5c397".to_owned());
    table.insert("Wikitext".to_owned(), "#fc5757".to_owned());
    table.insert("Windows Registry Entries".to_owned(), "#52d5ff".to_owned());
    table.insert("Witcher Script".to_owned(), "#ff0000".to_owned());
    table.insert("Wollok".to_owned(), "#a23738".to_owned());
    table.insert("World of Warcraft Addon Data".to_owned(), "#f7e43f".to_owned());
    table.insert("Wren".to_owned(), "#383838".to_owned());
    table.insert("X10".to_owned(), "#4B6BEF".to_owned());
    table.insert("XC".to_owned(), "#99DA07".to_owned());
    table.insert("XML".to_owned(), "#0060ac".to_owned());
    table.insert("XML Property List".to_owned(), "#0060ac".to_owned());
    table.insert("XQuery".to_owned(), "#5232e7".to_owned());
}

/// `table` with the colours of the languages from `XSLT` to `xBase`.
pub open spec fn with_eighteenth_part(table: Map<Seq<char>, Seq<char>>) -> Map<Seq<char>, Seq<char>> {
    table
        .insert("XSLT"@, "#EB8CEB"@)
        .insert("Xojo"@, "#81bd41"@)
        .insert("Xonsh"@, "#285EEF"@)
        .insert("Xtend"@, "#24255d"@)
        .insert("YAML"@, "#cb171e"@)
        .insert("YARA"@, "#220000"@)
        .insert("YASnippet"@, "#32AB90"@)
        .insert("Yacc"@, "#4B6C4B"@)
        .insert("Yul"@, "#794932"@)
        .insert("ZAP"@, "#0d665e"@)
        .insert("ZIL"@, "#dc75e5"@)
        .insert("ZenScript"@, "#00BCD1"@)
        .insert("Zephir"@, "#118f9e"@)
        .insert("Zig"@, "#ec915c"@)
        .insert("Zimpl"@, "#d67711"@)
        .insert("crontab"@, "#ead7ac"@)
        .insert("eC"@, "#913960"@)
        .insert("fish"@, "#4aae47"@)
        .insert("hoon"@, "#00b171"@)
        .insert("jq"@, "#c7254e"@)
        .insert("kvlang"@, "#1da6e0"@)
        .insert("mIRC Script"@, "#3d57c3"@)
        .insert("mcfunction"@, "#E22837"@)
        .insert("mupad"@, "#244963"@)
        .insert("nanorc"@, "#2d004d"@)
        .insert("nesC"@, "#94B0C7"@)
        .insert("ooc"@, "#b0b77e"@)
        .insert("q"@, "#0040cd"@)
        .insert("reStructuredText"@, "#141414"@)
        .insert("sed"@, "#64b970"@)
        .insert("templ"@, "#66D0DD"@)
        .insert("wisp"@, "#7582D1"@)
        .insert("xBase"@, "#403a40"@)
}

/// Enters the colours of the languages from `XSLT` to `xBase`.
fn enter_eighteenth_part(table: &mut TextMap)
    ensures
        final(table)@ == with_eighteenth_part(old(table)@),
{
    table.insert("XSLT".to_owned(), "#EB8CEB".to_owned());
    table.insert("Xojo".to_owned(), "#81bd41".to_owned());
    table.insert("Xonsh".to_owned(), "#285EEF".to_owned());
    table.insert("Xtend".to_owned(), "#24255d".to_owned());
    table.insert("YAML".to_owned(), "#cb171e".to_owned());
    table.insert("YARA".to_owned(), "#220000".to_owned());
    table.insert("YASnippet".to_owned(), "#32AB90".to_owned());
    table.insert("Yacc".to_owned(), "#4B6C4B".to_owned());
    table.insert("Yul".to_owned(), "#794932".to_owned());
    table.insert("ZAP".to_owned(), "#0d665e".to_owned());
    table.insert("ZIL".to_owned(), "#dc75e5".to_owned());
    table.insert("ZenScript".to_owned(), "#00BCD1".to_owned());
    table.insert("Zephir".to_owned(), "#118f9e".to_owned());
    table.insert("Zig".to_owned(), "#ec915c".to_owned());
    table.insert("Zimpl".to_owned(), "#d67711".to_owned());
    table.insert("crontab".to_owned(), "#ead7ac".to_owned());
    table.insert("eC".to_owned(), "#913960".to_owned());
    table.insert("fish".to_owned(), "#4aae47".to_owned());
    table.insert("hoon".to_owned(), "#00b171".to_owned());
    table.insert("jq".to_owned(), "#c7254e".to_owned());
    table.insert("kvlang".to_owned(), "#1da6e0".to_owned());
    table.insert("mIRC Script".to_owned(), "#3d57c3".to_owned());
    table.insert("mcfunction".to_owned(), "#E22837".to_owned());
    table.insert("mupad".to_owned(), "#244963".to_owned());
    table.insert("nanorc".to_owned(), "#2d004d".to_owned());
    table.insert("nesC".to_owned(), "#94B0C7".to_owned());
    table.insert("ooc".to_owned(), "#b0b77e".to_owned());
    table.insert("q".to_owned(), "#0040cd".to_owned());
    table.insert("reStructuredText".to_owned(), "#141414".to_owned());
    table.insert("sed".to_owned(), "#64b970".to_owned());
    table.insert("templ".to_owned(), "#66D0DD".to_owned());
    table.insert("wisp".to_owned(), "#7582D1".to_owned());
    table.insert("xBase".to_owned(), "#403a40".to_owned());
}

/// The colour of every known language, by its name.
pub open spec fn color_table() -> Map<Seq<char>, Seq<char>> {
    let table = Map::<Seq<char>, Seq<char>>::empty();
    let table = with_first_part(table);
    let table = with_second_part(table);
    let table = with_third_part(table);
    let table = with_fourth_part(table);
    let table = with_fifth_part(table);
    let table = with_sixth_part(table);
    let table = with_seventh_part(table);
    let table = with_eighth_part(table);
    let table = with_ninth_part(table);
    let table = with_tenth_part(table);
    let table = with_eleventh_part(table);
    let table = with_twelfth_part(table);
    let table = with_thirteenth_part(table);
    let table = with_fourteenth_part(table);
    let table = with_fifteenth_part(table);
    let table = with_sixteenth_part(table);
    let table = with_seventeenth_part(table);
    let table = with_eighteenth_part(table);
    table
}

/// The colour of every known language, by its name.
pub fn colors() -> (table: TextMap)
    ensures
        table@ == color_table(),
{
    let mut table = TextMap::new();
    enter_first_part(&mut table);
    enter_second_part(&mut table);
    enter_third_part(&mut table);
    enter_fourth_part(&mut table);
    enter_fifth_part(&mut table);
    enter_sixth_part(&mut table);
    enter_seventh_part(&mut table);
    enter_eighth_part(&mut table);
    enter_ninth_part(&mut table);
    enter_tenth_part(&mut table);
    enter_eleventh_part(&mut table);
    enter_twelfth_part(&mut table);
    enter_thirteenth_part(&mut table);
    enter_fourteenth_part(&mut table);
    enter_fifteenth_part(&mut table);
    enter_sixteenth_part(&mut table);
    enter_seventeenth_part(&mut table);
    enter_eighteenth_part(&mut table);
    table
}

} // verus!
