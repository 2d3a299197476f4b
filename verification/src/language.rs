//! Language codes: normalisation of Whisper codes to the codes the translation
//! service accepts, and the table of language names used in prompts.

use vstd::prelude::*;
use vstd::string::*;
use vstd::utf8::char_u32_cast;
use crate::text::{
    lemma_trim_idempotent, lemma_trim_noop, str_equal, trim, trim_ws, CharSet,
};

verus! {

/// The ASCII-lowercase code point of `c` (letters `A`..=`Z` map to `a`..=`z`,
/// every other character keeps its code point).
pub open spec fn ascii_lower_code(c: char) -> u32 {
    let v = c as u32;
    if 65 <= v && v <= 90 {
        (v + 32) as u32
    } else {
        v
    }
}

/// Equality of two strings that ignores the case of ASCII letters only.
pub open spec fn eq_ignoring_ascii_case(a: Seq<char>, b: Seq<char>) -> bool {
    &&& a.len() == b.len()
    &&& forall|k: int| 0 <= k < a.len() ==> ascii_lower_code(#[trigger] a[k]) == ascii_lower_code(b[k])
}

fn lower_code(c: char) -> (r: u32)
    ensures
        r == ascii_lower_code(c),
{
    let v = c as u32;
    if 65 <= v && v <= 90 {
        v + 32
    } else {
        v
    }
}

/// Compares two strings ignoring the case of ASCII letters.
pub fn eq_ignore_ascii_case(a: &str, b: &str) -> (r: bool)
    ensures
        r == eq_ignoring_ascii_case(a@, b@),
{
    let n = a.unicode_len();
    if n != b.unicode_len() {
        return false;
    }
    let mut i: usize = 0;
    while i < n
        invariant
            i <= n,
            n == a@.len(),
            n == b@.len(),
            forall|k: int| 0 <= k < i ==> ascii_lower_code(#[trigger] a@[k]) == ascii_lower_code(b@[k]),
        decreases n - i,
    {
        if lower_code(a.get_char(i)) != lower_code(b.get_char(i)) {
            return false;
        }
        i = i + 1;
    }
    true
}

/// The code that the translation service is given for the Whisper language
/// code `code`: trimmed; `auto` in any ASCII case becomes `auto`; `jw` becomes
/// `jv`; `yue` becomes `zh-TW`; and, for a target language, `nn` becomes `no`.
pub open spec fn normalized_lang(code: Seq<char>, is_target: bool) -> Seq<char> {
    let c = trim_ws(code);
    if eq_ignoring_ascii_case(c, "auto"@) {
        "auto"@
    } else if c == "jw"@ {
        "jv"@
    } else if c == "yue"@ {
        "zh-TW"@
    } else if is_target && c == "nn"@ {
        "no"@
    } else {
        c
    }
}

/// Normalises a Whisper language code to the code accepted by the translation
/// service, for a source language (`is_target == false`) or a target language.
pub fn normalize_google_lang(code: &str, is_target: bool) -> (r: String)
    ensures
        r@ == normalized_lang(code@, is_target),
{
    let c = trim(code);
    if eq_ignore_ascii_case(c, "auto") {
        return String::from_str("auto");
    }
    if str_equal(c, "jw") {
        return String::from_str("jv");
    }
    if str_equal(c, "yue") {
        return String::from_str("zh-TW");
    }
    if is_target && str_equal(c, "nn") {
        return String::from_str("no");
    }
    String::from_str(c)
}

/// Entries of the language table, part 1: (display name, code given in prompts).
pub open spec fn language_table_1(code: Seq<char>) -> Option<(Seq<char>, Seq<char>)> {
    if code == "af"@ {
        Some(("Afrikaans"@, "af"@))
    } else if code == "sq"@ {
        Some(("Albanian"@, "sq"@))
    } else if code == "am"@ {
        Some(("Amharic"@, "am"@))
    } else if code == "ar"@ {
        Some(("Arabic"@, "ar"@))
    } else if code == "hy"@ {
        Some(("Armenian"@, "hy"@))
    } else if code == "az"@ {
        Some(("Azerbaijani"@, "az"@))
    } else if code == "eu"@ {
        Some(("Basque"@, "eu"@))
    } else if code == "be"@ {
        Some(("Belarusian"@, "be"@))
    } else if code == "bn"@ {
        Some(("Bengali"@, "bn"@))
    } else if code == "bs"@ {
        Some(("Bosnian"@, "bs"@))
    } else if code == "bg"@ {
        Some(("Bulgarian"@, "bg"@))
    } else if code == "ca"@ {
        Some(("Catalan"@, "ca"@))
    } else if code == "ceb"@ {
        Some(("Cebuano"@, "ceb"@))
    } else if code == "ny"@ {
        Some(("Chichewa"@, "ny"@))
    } else if code == "zh"@ || code == "zh-cn"@ || code == "zh-hans"@ {
        Some(("Chinese (Simplified)"@, "zh-Hans"@))
    } else if code == "zh-tw"@ || code == "zh-hant"@ {
        Some(("Chinese (Traditional)"@, "zh-Hant"@))
    } else if code == "co"@ {
        Some(("Corsican"@, "co"@))
    } else if code == "hr"@ {
        Some(("Croatian"@, "hr"@))
    } else if code == "cs"@ {
        Some(("Czech"@, "cs"@))
    } else if code == "da"@ {
        Some(("Danish"@, "da"@))
    } else if code == "nl"@ {
        Some(("Dutch"@, "nl"@))
    } else if code == "en"@ {
        Some(("English"@, "en"@))
    } else if code == "eo"@ {
        Some(("Esperanto"@, "eo"@))
    } else if code == "et"@ {
        Some(("Estonian"@, "et"@))
    } else if code == "tl"@ || code == "fil"@ {
        Some(("Filipino"@, "fil-PH"@))
    } else if code == "fi"@ {
        Some(("Finnish"@, "fi"@))
    } else if code == "fr"@ {
        Some(("French"@, "fr"@))
    } else {
        None
    }
}

fn lookup_part_1(lowered: &str) -> (r: Option<(&'static str, &'static str)>)
    ensures
        r is Some == language_table_1(lowered@) is Some,
        r matches Some(p) ==> (p.0@, p.1@) == language_table_1(lowered@).unwrap(),
{
    if str_equal(lowered, "af") {
        return Some(("Afrikaans", "af"));
    }
    if str_equal(lowered, "sq") {
        return Some(("Albanian", "sq"));
    }
    if str_equal(lowered, "am") {
        return Some(("Amharic", "am"));
    }
    if str_equal(lowered, "ar") {
        return Some(("Arabic", "ar"));
    }
    if str_equal(lowered, "hy") {
        return Some(("Armenian", "hy"));
    }
    if str_equal(lowered, "az") {
        return Some(("Azerbaijani", "az"));
    }
    if str_equal(lowered, "eu") {
        return Some(("Basque", "eu"));
    }
    if str_equal(lowered, "be") {
        return Some(("Belarusian", "be"));
    }
    if str_equal(lowered, "bn") {
        return Some(("Bengali", "bn"));
    }
    if str_equal(lowered, "bs") {
        return Some(("Bosnian", "bs"));
    }
    if str_equal(lowered, "bg") {
        return Some(("Bulgarian", "bg"));
    }
    if str_equal(lowered, "ca") {
        return Some(("Catalan", "ca"));
    }
    if str_equal(lowered, "ceb") {
        return Some(("Cebuano", "ceb"));
    }
    if str_equal(lowered, "ny") {
        return Some(("Chichewa", "ny"));
    }
    if str_equal(lowered, "zh") || str_equal(lowered, "zh-cn") || str_equal(lowered, "zh-hans") {
        return Some(("Chinese (Simplified)", "zh-Hans"));
    }
    if str_equal(lowered, "zh-tw") || str_equal(lowered, "zh-hant") {
        return Some(("Chinese (Traditional)", "zh-Hant"));
    }
    if str_equal(lowered, "co") {
        return Some(("Corsican", "co"));
    }
    if str_equal(lowered, "hr") {
        return Some(("Croatian", "hr"));
    }
    if str_equal(lowered, "cs") {
        return Some(("Czech", "cs"));
    }
    if str_equal(lowered, "da") {
        return Some(("Danish", "da"));
    }
    if str_equal(lowered, "nl") {
        return Some(("Dutch", "nl"));
    }
    if str_equal(lowered, "en") {
        return Some(("English", "en"));
    }
    if str_equal(lowered, "eo") {
        return Some(("Esperanto", "eo"));
    }
    if str_equal(lowered, "et") {
        return Some(("Estonian", "et"));
    }
    if str_equal(lowered, "tl") || str_equal(lowered, "fil") {
        return Some(("Filipino", "fil-PH"));
    }
    if str_equal(lowered, "fi") {
        return Some(("Finnish", "fi"));
    }
    if str_equal(lowered, "fr") {
        return Some(("French", "fr"));
    }
    None
}

/// Entries of the language table, part 2: (display name, code given in prompts).
pub open spec fn language_table_2(code: Seq<char>) -> Option<(Seq<char>, Seq<char>)> {
    if code == "fy"@ {
        Some(("Western Frisian"@, "fy"@))
    } else if code == "gl"@ {
        Some(("Galician"@, "gl"@))
    } else if code == "ka"@ {
        Some(("Georgian"@, "ka"@))
    } else if code == "de"@ {
        Some(("German"@, "de"@))
    } else if code == "el"@ {
        Some(("Greek"@, "el"@))
    } else if code == "gu"@ {
        Some(("Gujarati"@, "gu"@))
    } else if code == "ht"@ {
        Some(("Haitian"@, "ht"@))
    } else if code == "ha"@ {
        Some(("Hausa"@, "ha"@))
    } else if code == "haw"@ {
        Some(("Hawaiian"@, "haw"@))
    } else if code == "he"@ {
        Some(("Hebrew"@, "he"@))
    } else if code == "hi"@ {
        Some(("Hindi"@, "hi"@))
    } else if code == "hmn"@ {
        Some(("Hmong"@, "hmn"@))
    } else if code == "hu"@ {
        Some(("Hungarian"@, "hu"@))
    } else if code == "is"@ {
        Some(("Icelandic"@, "is"@))
    } else if code == "ig"@ {
        Some(("Igbo"@, "ig"@))
    } else if code == "id"@ {
        Some(("Indonesian"@, "id"@))
    } else if code == "ga"@ {
        Some(("Irish"@, "ga"@))
    } else if code == "it"@ {
        Some(("Italian"@, "it"@))
    } else if code == "ja"@ {
        Some(("Japanese"@, "ja"@))
    } else if code == "jv"@ || code == "jw"@ {
        Some(("Javanese"@, "jv"@))
    } else if code == "kn"@ {
        Some(("Kannada"@, "kn"@))
    } else if code == "kk"@ {
        Some(("Kazakh"@, "kk"@))
    } else if code == "km"@ {
        Some(("Central Khmer"@, "km"@))
    } else if code == "rw"@ {
        Some(("Kinyarwanda"@, "rw"@))
    } else if code == "ko"@ {
        Some(("Korean"@, "ko"@))
    } else if code == "ku"@ {
        Some(("Kurdish"@, "ku"@))
    } else if code == "ky"@ {
        Some(("Kyrgyz"@, "ky"@))
    } else {
        None
    }
}

fn lookup_part_2(lowered: &str) -> (r: Option<(&'static str, &'static str)>)
    ensures
        r is Some == language_table_2(lowered@) is Some,
        r matches Some(p) ==> (p.0@, p.1@) == language_table_2(lowered@).unwrap(),
{
    if str_equal(lowered, "fy") {
        return Some(("Western Frisian", "fy"));
    }
    if str_equal(lowered, "gl") {
        return Some(("Galician", "gl"));
    }
    if str_equal(lowered, "ka") {
        return Some(("Georgian", "ka"));
    }
    if str_equal(lowered, "de") {
        return Some(("German", "de"));
    }
    if str_equal(lowered, "el") {
        return Some(("Greek", "el"));
    }
    if str_equal(lowered, "gu") {
        return Some(("Gujarati", "gu"));
    }
    if str_equal(lowered, "ht") {
        return Some(("Haitian", "ht"));
    }
    if str_equal(lowered, "ha") {
        return Some(("Hausa", "ha"));
    }
    if str_equal(lowered, "haw") {
        return Some(("Hawaiian", "haw"));
    }
    if str_equal(lowered, "he") {
        return Some(("Hebrew", "he"));
    }
    if str_equal(lowered, "hi") {
        return Some(("Hindi", "hi"));
    }
    if str_equal(lowered, "hmn") {
        return Some(("Hmong", "hmn"));
    }
    if str_equal(lowered, "hu") {
        return Some(("Hungarian", "hu"));
    }
    if str_equal(lowered, "is") {
        return Some(("Icelandic", "is"));
    }
    if str_equal(lowered, "ig") {
        return Some(("Igbo", "ig"));
    }
    if str_equal(lowered, "id") {
        return Some(("Indonesian", "id"));
    }
    if str_equal(lowered, "ga") {
        return Some(("Irish", "ga"));
    }
    if str_equal(lowered, "it") {
        return Some(("Italian", "it"));
    }
    if str_equal(lowered, "ja") {
        return Some(("Japanese", "ja"));
    }
    if str_equal(lowered, "jv") || str_equal(lowered, "jw") {
        return Some(("Javanese", "jv"));
    }
    if str_equal(lowered, "kn") {
        return Some(("Kannada", "kn"));
    }
    if str_equal(lowered, "kk") {
        return Some(("Kazakh", "kk"));
    }
    if str_equal(lowered, "km") {
        return Some(("Central Khmer", "km"));
    }
    if str_equal(lowered, "rw") {
        return Some(("Kinyarwanda", "rw"));
    }
    if str_equal(lowered, "ko") {
        return Some(("Korean", "ko"));
    }
    if str_equal(lowered, "ku") {
        return Some(("Kurdish", "ku"));
    }
    if str_equal(lowered, "ky") {
        return Some(("Kyrgyz", "ky"));
    }
    None
}

/// Entries of the language table, part 3: (display name, code given in prompts).
pub open spec fn language_table_3(code: Seq<char>) -> Option<(Seq<char>, Seq<char>)> {
    if code == "lo"@ {
        Some(("Lao"@, "lo"@))
    } else if code == "la"@ {
        Some(("Latin"@, "la"@))
    } else if code == "lv"@ {
        Some(("Latvian"@, "lv"@))
    } else if code == "lt"@ {
        Some(("Lithuanian"@, "lt"@))
    } else if code == "lb"@ {
        Some(("Luxembourgish"@, "lb"@))
    } else if code == "mk"@ {
        Some(("Macedonian"@, "mk"@))
    } else if code == "mg"@ {
        Some(("Malagasy"@, "mg"@))
    } else if code == "ms"@ {
        Some(("Malay"@, "ms"@))
    } else if code == "ml"@ {
        Some(("Malayalam"@, "ml"@))
    } else if code == "mt"@ {
        Some(("Maltese"@, "mt"@))
    } else if code == "mi"@ {
        Some(("Maori"@, "mi"@))
    } else if code == "mr"@ {
        Some(("Marathi"@, "mr"@))
    } else if code == "mn"@ {
        Some(("Mongolian"@, "mn"@))
    } else if code == "my"@ {
        Some(("Burmese"@, "my"@))
    } else if code == "ne"@ {
        Some(("Nepali"@, "ne"@))
    } else if code == "no"@ || code == "nb"@ {
        Some(("Norwegian Bokmål"@, "nb"@))
    } else if code == "nn"@ {
        Some(("Norwegian Nynorsk"@, "nn"@))
    } else if code == "or"@ {
        Some(("Oriya"@, "or"@))
    } else if code == "ps"@ {
        Some(("Pashto"@, "ps"@))
    } else if code == "fa"@ {
        Some(("Persian"@, "fa"@))
    } else if code == "pl"@ {
        Some(("Polish"@, "pl"@))
    } else if code == "pt"@ {
        Some(("Portuguese"@, "pt"@))
    } else if code == "pa"@ {
        Some(("Punjabi"@, "pa"@))
    } else if code == "ro"@ {
        Some(("Romanian"@, "ro"@))
    } else if code == "ru"@ {
        Some(("Russian"@, "ru"@))
    } else if code == "sm"@ {
        Some(("Samoan"@, "sm"@))
    } else if code == "gd"@ {
        Some(("Scottish Gaelic"@, "gd"@))
    } else {
        None
    }
}

fn lookup_part_3(lowered: &str) -> (r: Option<(&'static str, &'static str)>)
    ensures
        r is Some == language_table_3(lowered@) is Some,
        r matches Some(p) ==> (p.0@, p.1@) == language_table_3(lowered@).unwrap(),
{
    if str_equal(lowered, "lo") {
        return Some(("Lao", "lo"));
    }
    if str_equal(lowered, "la") {
        return Some(("Latin", "la"));
    }
    if str_equal(lowered, "lv") {
        return Some(("Latvian", "lv"));
    }
    if str_equal(lowered, "lt") {
        return Some(("Lithuanian", "lt"));
    }
    if str_equal(lowered, "lb") {
        return Some(("Luxembourgish", "lb"));
    }
    if str_equal(lowered, "mk") {
        return Some(("Macedonian", "mk"));
    }
    if str_equal(lowered, "mg") {
        return Some(("Malagasy", "mg"));
    }
    if str_equal(lowered, "ms") {
        return Some(("Malay", "ms"));
    }
    if str_equal(lowered, "ml") {
        return Some(("Malayalam", "ml"));
    }
    if str_equal(lowered, "mt") {
        return Some(("Maltese", "mt"));
    }
    if str_equal(lowered, "mi") {
        return Some(("Maori", "mi"));
    }
    if str_equal(lowered, "mr") {
        return Some(("Marathi", "mr"));
    }
    if str_equal(lowered, "mn") {
        return Some(("Mongolian", "mn"));
    }
    if str_equal(lowered, "my") {
        return Some(("Burmese", "my"));
    }
    if str_equal(lowered, "ne") {
        return Some(("Nepali", "ne"));
    }
    if str_equal(lowered, "no") || str_equal(lowered, "nb") {
        return Some(("Norwegian Bokmål", "nb"));
    }
    if str_equal(lowered, "nn") {
        return Some(("Norwegian Nynorsk", "nn"));
    }
    if str_equal(lowered, "or") {
        return Some(("Oriya", "or"));
    }
    if str_equal(lowered, "ps") {
        return Some(("Pashto", "ps"));
    }
    if str_equal(lowered, "fa") {
        return Some(("Persian", "fa"));
    }
    if str_equal(lowered, "pl") {
        return Some(("Polish", "pl"));
    }
    if str_equal(lowered, "pt") {
        return Some(("Portuguese", "pt"));
    }
    if str_equal(lowered, "pa") {
        return Some(("Punjabi", "pa"));
    }
    if str_equal(lowered, "ro") {
        return Some(("Romanian", "ro"));
    }
    if str_equal(lowered, "ru") {
        return Some(("Russian", "ru"));
    }
    if str_equal(lowered, "sm") {
        return Some(("Samoan", "sm"));
    }
    if str_equal(lowered, "gd") {
        return Some(("Scottish Gaelic", "gd"));
    }
    None
}

/// Entries of the language table, part 4: (display name, code given in prompts).
pub open spec fn language_table_4(code: Seq<char>) -> Option<(Seq<char>, Seq<char>)> {
    if code == "sr"@ {
        Some(("Serbian"@, "sr"@))
    } else if code == "st"@ {
        Some(("Southern Sotho"@, "st"@))
    } else if code == "sn"@ {
        Some(("Shona"@, "sn"@))
    } else if code == "sd"@ {
        Some(("Sindhi"@, "sd"@))
    } else if code == "si"@ {
        Some(("Sinhala"@, "si"@))
    } else if code == "sk"@ {
        Some(("Slovak"@, "sk"@))
    } else if code == "sl"@ {
        Some(("Slovenian"@, "sl"@))
    } else if code == "so"@ {
        Some(("Somali"@, "so"@))
    } else if code == "es"@ {
        Some(("Spanish"@, "es"@))
    } else if code == "su"@ {
        Some(("Sundanese"@, "su"@))
    } else if code == "sw"@ {
        Some(("Swahili"@, "sw"@))
    } else if code == "sv"@ {
        Some(("Swedish"@, "sv"@))
    } else if code == "tg"@ {
        Some(("Tajik"@, "tg"@))
    } else if code == "ta"@ {
        Some(("Tamil"@, "ta"@))
    } else if code == "te"@ {
        Some(("Telugu"@, "te"@))
    } else if code == "th"@ {
        Some(("Thai"@, "th"@))
    } else if code == "tr"@ {
        Some(("Turkish"@, "tr"@))
    } else if code == "uk"@ {
        Some(("Ukrainian"@, "uk"@))
    } else if code == "ur"@ {
        Some(("Urdu"@, "ur"@))
    } else if code == "ug"@ {
        Some(("Uyghur"@, "ug"@))
    } else if code == "uz"@ {
        Some(("Uzbek"@, "uz"@))
    } else if code == "vi"@ {
        Some(("Vietnamese"@, "vi"@))
    } else if code == "cy"@ {
        Some(("Welsh"@, "cy"@))
    } else if code == "xh"@ {
        Some(("Xhosa"@, "xh"@))
    } else if code == "yi"@ {
        Some(("Yiddish"@, "yi"@))
    } else if code == "yo"@ {
        Some(("Yoruba"@, "yo"@))
    } else if code == "zu"@ {
        Some(("Zulu"@, "zu"@))
    } else {
        None
    }
}

fn lookup_part_4(lowered: &str) -> (r: Option<(&'static str, &'static str)>)
    ensures
        r is Some == language_table_4(lowered@) is Some,
        r matches Some(p) ==> (p.0@, p.1@) == language_table_4(lowered@).unwrap(),
{
    if str_equal(lowered, "sr") {
        return Some(("Serbian", "sr"));
    }
    if str_equal(lowered, "st") {
        return Some(("Southern Sotho", "st"));
    }
    if str_equal(lowered, "sn") {
        return Some(("Shona", "sn"));
    }
    if str_equal(lowered, "sd") {
        return Some(("Sindhi", "sd"));
    }
    if str_equal(lowered, "si") {
        return Some(("Sinhala", "si"));
    }
    if str_equal(lowered, "sk") {
        return Some(("Slovak", "sk"));
    }
    if str_equal(lowered, "sl") {
        return Some(("Slovenian", "sl"));
    }
    if str_equal(lowered, "so") {
        return Some(("Somali", "so"));
    }
    if str_equal(lowered, "es") {
        return Some(("Spanish", "es"));
    }
    if str_equal(lowered, "su") {
        return Some(("Sundanese", "su"));
    }
    if str_equal(lowered, "sw") {
        return Some(("Swahili", "sw"));
    }
    if str_equal(lowered, "sv") {
        return Some(("Swedish", "sv"));
    }
    if str_equal(lowered, "tg") {
        return Some(("Tajik", "tg"));
    }
    if str_equal(lowered, "ta") {
        return Some(("Tamil", "ta"));
    }
    if str_equal(lowered, "te") {
        return Some(("Telugu", "te"));
    }
    if str_equal(lowered, "th") {
        return Some(("Thai", "th"));
    }
    if str_equal(lowered, "tr") {
        return Some(("Turkish", "tr"));
    }
    if str_equal(lowered, "uk") {
        return Some(("Ukrainian", "uk"));
    }
    if str_equal(lowered, "ur") {
        return Some(("Urdu", "ur"));
    }
    if str_equal(lowered, "ug") {
        return Some(("Uyghur", "ug"));
    }
    if str_equal(lowered, "uz") {
        return Some(("Uzbek", "uz"));
    }
    if str_equal(lowered, "vi") {
        return Some(("Vietnamese", "vi"));
    }
    if str_equal(lowered, "cy") {
        return Some(("Welsh", "cy"));
    }
    if str_equal(lowered, "xh") {
        return Some(("Xhosa", "xh"));
    }
    if str_equal(lowered, "yi") {
        return Some(("Yiddish", "yi"));
    }
    if str_equal(lowered, "yo") {
        return Some(("Yoruba", "yo"));
    }
    if str_equal(lowered, "zu") {
        return Some(("Zulu", "zu"));
    }
    None
}

/// The language table: for a lowercase language code, its display name and
/// the code given in prompts; `None` for a code the table does not know.
pub open spec fn language_table(code: Seq<char>) -> Option<(Seq<char>, Seq<char>)> {
    if language_table_1(code) is Some { language_table_1(code) } else { if language_table_2(code) is Some { language_table_2(code) } else { if language_table_3(code) is Some { language_table_3(code) } else { language_table_4(code) } } }
}

/// Display name and prompt code for the code `code` whose lowercase form is
/// `lowered`: the table's entry for `lowered`, or `("Unknown", code)`.
pub open spec fn language_info_of(lowered: Seq<char>, code: Seq<char>) -> (Seq<char>, Seq<char>) {
    match language_table(lowered) {
        Some(entry) => entry,
        None => ("Unknown"@, code),
    }
}

/// Looks up the language whose lowercase code is `lowered`; `code` is the code
/// as given, returned as the prompt code when the table does not know it.
pub fn lookup_language<'a>(lowered: &str, code: &'a str) -> (r: (&'static str, &'a str))
    ensures
        (r.0@, r.1@) == language_info_of(lowered@, code@),
{
    if let Some(p) = lookup_part_1(lowered) {
        return (p.0, p.1);
    }
    if let Some(p) = lookup_part_2(lowered) {
        return (p.0, p.1);
    }
    if let Some(p) = lookup_part_3(lowered) {
        return (p.0, p.1);
    }
    if let Some(p) = lookup_part_4(lowered) {
        return (p.0, p.1);
    }
    ("Unknown", code)
}

/// Name for what `str::to_lowercase` returns for a string: its lowercase form
/// under the Unicode `Lowercase` mapping.
pub uninterp spec fn unicode_lowercase(s: Seq<char>) -> Seq<char>;

/// Every character of `s` is ASCII (code point below 128).
pub open spec fn is_ascii_text(s: Seq<char>) -> bool {
    forall|k: int| 0 <= k < s.len() ==> (#[trigger] s[k] as u32) < 128
}

/// `c` with an ASCII capital letter replaced by its small letter.
pub open spec fn ascii_lower_char(c: char) -> char {
    if 65 <= (c as u32) && (c as u32) <= 90 {
        ((c as u32) + 32) as char
    } else {
        c
    }
}

/// `s` with every ASCII capital letter replaced by its small letter.
pub open spec fn ascii_lowered(s: Seq<char>) -> Seq<char> {
    Seq::new(s.len(), |i: int| ascii_lower_char(s[i]))
}

/// The lowercase form of a language code: for ASCII text, its ASCII
/// lowercasing; otherwise what `str::to_lowercase` returns.
pub open spec fn lower_form(s: Seq<char>) -> Seq<char> {
    if is_ascii_text(s) {
        ascii_lowered(s)
    } else {
        unicode_lowercase(s)
    }
}

/// Calls `str::to_lowercase`. The result is named, as a function of the input
/// alone; for ASCII input the Unicode lowercase mapping maps each capital
/// letter `A`..`Z` to `a`..`z` and keeps every other character, which the
/// second clause states.
#[verifier::external_body]
fn str_to_lowercase(s: &str) -> (r: String)
    ensures
        r@ == unicode_lowercase(s@),
        is_ascii_text(s@) ==> r@ == ascii_lowered(s@),
{
    s.to_lowercase()
}

/// Display name and prompt code for a language code, looked up by its
/// lowercase form; an unknown code gives `("Unknown", code)`.
pub fn get_language_info<'a>(code: &'a str) -> (r: (&'static str, &'a str))
    ensures
        (r.0@, r.1@) == language_info_of(unicode_lowercase(code@), code@),
        (r.0@, r.1@) == language_info_of(lower_form(code@), code@),
{
    let lowered = str_to_lowercase(code);
    lookup_language(lowered.as_str(), code)
}


/// Normalising a language code is idempotent: a normalised code normalises to
/// itself, for source and for target codes.
pub proof fn normalize_google_lang_idempotent(code: Seq<char>, is_target: bool)
    ensures
        normalized_lang(normalized_lang(code, is_target), is_target) == normalized_lang(
            code,
            is_target,
        ),
{
    reveal_strlit("auto");
    reveal_strlit("jw");
    reveal_strlit("jv");
    reveal_strlit("yue");
    reveal_strlit("zh-TW");
    reveal_strlit("nn");
    reveal_strlit("no");
    let n = normalized_lang(code, is_target);
    lemma_trim_idempotent(code, CharSet::Whitespace);
    lemma_trim_noop("auto"@, CharSet::Whitespace);
    lemma_trim_noop("jv"@, CharSet::Whitespace);
    lemma_trim_noop("zh-TW"@, CharSet::Whitespace);
    lemma_trim_noop("no"@, CharSet::Whitespace);
    assert(!eq_ignoring_ascii_case("jv"@, "auto"@));
    assert(!eq_ignoring_ascii_case("no"@, "auto"@));
    assert(!eq_ignoring_ascii_case("zh-TW"@, "auto"@));
    assert("jv"@ != "jw"@);
    assert("no"@ != "nn"@);
    assert("zh-TW"@ != "yue"@);
    assert("auto"@ != "jw"@);
}


/// Codes that differ only in case get the same display name; a code the table
/// knows gets the same prompt code too, whatever its case.
pub proof fn language_info_ignores_case(a: Seq<char>, b: Seq<char>)
    requires
        unicode_lowercase(a) == unicode_lowercase(b),
    ensures
        language_info_of(unicode_lowercase(a), a).0 == language_info_of(unicode_lowercase(b), b).0,
        language_table(unicode_lowercase(a)) is Some ==> language_info_of(unicode_lowercase(a), a)
            == language_info_of(unicode_lowercase(b), b),
{
}


proof fn lemma_ascii_literal_lower(s: Seq<char>)
    requires
        forall|k: int| 0 <= k < s.len() ==> 97 <= #[trigger] (s[k] as u32) <= 122 || (s[k] as u32)
            == 45,
    ensures
        is_ascii_text(s),
        ascii_lowered(s) == s,
        lower_form(s) == s,
{
    assert(ascii_lowered(s) =~= s);
}

/// The lowercase form of `zh-TW` is the table's key `zh-tw`.
proof fn lemma_traditional_chinese_code_lowered()
    ensures
        lower_form("zh-TW"@) == "zh-tw"@,
        "zh-tw"@.len() == 5,
{
    reveal_strlit("zh-TW");
    reveal_strlit("zh-tw");
    lemma_ascii_literal_lower("zh-tw"@);
    assert forall|k: int| 0 <= k < 5 implies #[trigger] ascii_lowered("zh-TW"@)[k] == "zh-tw"@[k] by {
        char_u32_cast("zh-tw"@[k], "zh-tw"@[k] as u32);
    }
    assert(ascii_lowered("zh-TW"@) =~= "zh-tw"@);
    assert(is_ascii_text("zh-TW"@));
}

/// Normalising never turns a code that the language table knows into one it
/// does not know, for source and for target codes.
pub proof fn normalizing_keeps_a_known_language(code: Seq<char>, is_target: bool)
    requires
        language_table(lower_form(trim_ws(code))) is Some,
    ensures
        language_table(lower_form(normalized_lang(code, is_target))) is Some,
{
    reveal_strlit("auto");
    reveal_strlit("jw");
    reveal_strlit("jv");
    reveal_strlit("yue");
    reveal_strlit("zh-TW");
    reveal_strlit("zh-tw");
    reveal_strlit("nn");
    reveal_strlit("no");
    let c = trim_ws(code);
    if eq_ignoring_ascii_case(c, "auto"@) {
        assert forall|k: int| 0 <= k < c.len() implies (#[trigger] c[k] as u32) < 128 by {
            assert("auto"@[0] == 'a' && "auto"@[1] == 'u' && "auto"@[2] == 't' && "auto"@[3] == 'o');
            assert(ascii_lower_code(c[k]) == ascii_lower_code("auto"@[k]));
            assert(ascii_lower_code("auto"@[k]) <= 122);
        }
        assert forall|k: int| 0 <= k < c.len() implies #[trigger] ascii_lowered(c)[k] == "auto"@[k] by {
            assert(ascii_lower_code(c[k]) == ascii_lower_code("auto"@[k]));
            char_u32_cast("auto"@[k], "auto"@[k] as u32);
        }
        assert(ascii_lowered(c) =~= "auto"@);
        lemma_ascii_literal_lower("auto"@);
    } else if c == "jw"@ {
        lemma_ascii_literal_lower("jv"@);
    } else if c == "yue"@ {
        lemma_traditional_chinese_code_lowered();
    } else if is_target && c == "nn"@ {
        lemma_ascii_literal_lower("no"@);
    }
}

/// Cantonese (`yue`) is put to the model as Traditional Chinese.
pub proof fn cantonese_is_traditional_chinese(is_target: bool)
    ensures
        language_info_of(
            lower_form(normalized_lang("yue"@, is_target)),
            normalized_lang("yue"@, is_target),
        ) == ("Chinese (Traditional)"@, "zh-Hant"@),
{
    reveal_strlit("auto");
    reveal_strlit("jw");
    reveal_strlit("yue");
    reveal_strlit("zh-TW");
    reveal_strlit("zh-tw");
    reveal_strlit("zh-hant");
    reveal_strlit("af");
    reveal_strlit("sq");
    reveal_strlit("am");
    reveal_strlit("ar");
    reveal_strlit("hy");
    reveal_strlit("az");
    reveal_strlit("eu");
    reveal_strlit("be");
    reveal_strlit("bn");
    reveal_strlit("bs");
    reveal_strlit("bg");
    reveal_strlit("ca");
    reveal_strlit("ceb");
    reveal_strlit("ny");
    reveal_strlit("zh");
    reveal_strlit("zh-cn");
    reveal_strlit("zh-hans");
    lemma_trim_noop("yue"@, CharSet::Whitespace);
    assert(!eq_ignoring_ascii_case("yue"@, "auto"@));
    assert(normalized_lang("yue"@, is_target) == "zh-TW"@);
    lemma_traditional_chinese_code_lowered();
    assert("zh-tw"@ != "af"@);
    assert("zh-tw"@ != "sq"@);
    assert("zh-tw"@ != "am"@);
    assert("zh-tw"@ != "ar"@);
    assert("zh-tw"@ != "hy"@);
    assert("zh-tw"@ != "az"@);
    assert("zh-tw"@ != "eu"@);
    assert("zh-tw"@ != "be"@);
    assert("zh-tw"@ != "bn"@);
    assert("zh-tw"@ != "bs"@);
    assert("zh-tw"@ != "bg"@);
    assert("zh-tw"@ != "ca"@);
    assert("zh-tw"@ != "ceb"@);
    assert("zh-tw"@ != "ny"@);
    assert("zh-tw"@ != "zh"@);
    assert("zh-tw"@[3] != "zh-cn"@[3]);
    assert("zh-tw"@ != "zh-cn"@);
    assert("zh-tw"@ != "zh-hans"@);
    assert(language_table_1("zh-tw"@) == Some(("Chinese (Traditional)"@, "zh-Hant"@)));
}


/// Normalisation remaps exactly the documented codes and leaves every other
/// code as it is, trimmed: `auto` in any ASCII case gives `auto`, `jw` gives
/// `jv`, `yue` gives `zh-TW`, `nn` as a target gives `no`, and any other
/// trimmed code is returned unchanged.
pub proof fn normalize_remaps_only_documented_codes(code: Seq<char>, is_target: bool)
    ensures
        eq_ignoring_ascii_case(trim_ws(code), "auto"@) ==> normalized_lang(code, is_target)
            == "auto"@,
        trim_ws(code) == "jw"@ ==> normalized_lang(code, is_target) == "jv"@,
        trim_ws(code) == "yue"@ ==> normalized_lang(code, is_target) == "zh-TW"@,
        is_target && trim_ws(code) == "nn"@ ==> normalized_lang(code, is_target) == "no"@,
        !is_target && trim_ws(code) == "nn"@ ==> normalized_lang(code, is_target) == "nn"@,
        !eq_ignoring_ascii_case(trim_ws(code), "auto"@) && trim_ws(code) != "jw"@ && trim_ws(code)
            != "yue"@ && trim_ws(code) != "nn"@ ==> normalized_lang(code, is_target) == trim_ws(
            code,
        ),
{
    reveal_strlit("auto");
    reveal_strlit("jw");
    reveal_strlit("yue");
    reveal_strlit("nn");
    assert(!eq_ignoring_ascii_case("jw"@, "auto"@));
    assert(!eq_ignoring_ascii_case("yue"@, "auto"@));
    assert(!eq_ignoring_ascii_case("nn"@, "auto"@));
    assert("nn"@[0] != "jw"@[0]);
    assert("nn"@ != "jw"@);
    assert("nn"@ != "yue"@);
    assert("yue"@ != "jw"@);
}

/// Entries of the language table, part 1: each listed code maps to its
/// display name and prompt code.
pub proof fn language_table_entries_1()
    ensures
        language_table("af"@) == Some(("Afrikaans"@, "af"@)),
        language_table("sq"@) == Some(("Albanian"@, "sq"@)),
        language_table("am"@) == Some(("Amharic"@, "am"@)),
        language_table("ar"@) == Some(("Arabic"@, "ar"@)),
        language_table("hy"@) == Some(("Armenian"@, "hy"@)),
        language_table("az"@) == Some(("Azerbaijani"@, "az"@)),
        language_table("eu"@) == Some(("Basque"@, "eu"@)),
        language_table("be"@) == Some(("Belarusian"@, "be"@)),
        language_table("bn"@) == Some(("Bengali"@, "bn"@)),
        language_table("bs"@) == Some(("Bosnian"@, "bs"@)),
        language_table("bg"@) == Some(("Bulgarian"@, "bg"@)),
        language_table("ca"@) == Some(("Catalan"@, "ca"@)),
        language_table("ceb"@) == Some(("Cebuano"@, "ceb"@)),
        language_table("ny"@) == Some(("Chichewa"@, "ny"@)),
        language_table("zh"@) == Some(("Chinese (Simplified)"@, "zh-Hans"@)),
        language_table("zh-cn"@) == Some(("Chinese (Simplified)"@, "zh-Hans"@)),
        language_table("zh-hans"@) == Some(("Chinese (Simplified)"@, "zh-Hans"@)),
        language_table("zh-tw"@) == Some(("Chinese (Traditional)"@, "zh-Hant"@)),
        language_table("zh-hant"@) == Some(("Chinese (Traditional)"@, "zh-Hant"@)),
        language_table("co"@) == Some(("Corsican"@, "co"@)),
        language_table("hr"@) == Some(("Croatian"@, "hr"@)),
        language_table("cs"@) == Some(("Czech"@, "cs"@)),
        language_table("da"@) == Some(("Danish"@, "da"@)),
        language_table("nl"@) == Some(("Dutch"@, "nl"@)),
        language_table("en"@) == Some(("English"@, "en"@)),
        language_table("eo"@) == Some(("Esperanto"@, "eo"@)),
        language_table("et"@) == Some(("Estonian"@, "et"@)),
        language_table("tl"@) == Some(("Filipino"@, "fil-PH"@)),
        language_table("fil"@) == Some(("Filipino"@, "fil-PH"@)),
        language_table("fi"@) == Some(("Finnish"@, "fi"@)),
        language_table("fr"@) == Some(("French"@, "fr"@)),
{
    reveal_strlit("af");
    reveal_strlit("sq");
    reveal_strlit("am");
    reveal_strlit("ar");
    reveal_strlit("hy");
    reveal_strlit("az");
    reveal_strlit("eu");
    reveal_strlit("be");
    reveal_strlit("bn");
    reveal_strlit("bs");
    reveal_strlit("bg");
    reveal_strlit("ca");
    reveal_strlit("ceb");
    reveal_strlit("ny");
    reveal_strlit("zh");
    reveal_strlit("zh-cn");
    reveal_strlit("zh-hans");
    reveal_strlit("zh-tw");
    reveal_strlit("zh-hant");
    reveal_strlit("co");
    reveal_strlit("hr");
    reveal_strlit("cs");
    reveal_strlit("da");
    reveal_strlit("nl");
    reveal_strlit("en");
    reveal_strlit("eo");
    reveal_strlit("et");
    reveal_strlit("tl");
    reveal_strlit("fil");
    reveal_strlit("fi");
    reveal_strlit("fr");
    assert("af"@.len() == 2 && "af"@[0] == 'a' && "af"@[1] == 'f');
    assert("sq"@.len() == 2 && "sq"@[0] == 's' && "sq"@[1] == 'q');
    assert("am"@.len() == 2 && "am"@[0] == 'a' && "am"@[1] == 'm');
    assert("ar"@.len() == 2 && "ar"@[0] == 'a' && "ar"@[1] == 'r');
    assert("hy"@.len() == 2 && "hy"@[0] == 'h' && "hy"@[1] == 'y');
    assert("az"@.len() == 2 && "az"@[0] == 'a' && "az"@[1] == 'z');
    assert("eu"@.len() == 2 && "eu"@[0] == 'e' && "eu"@[1] == 'u');
    assert("be"@.len() == 2 && "be"@[0] == 'b' && "be"@[1] == 'e');
    assert("bn"@.len() == 2 && "bn"@[0] == 'b' && "bn"@[1] == 'n');
    assert("bs"@.len() == 2 && "bs"@[0] == 'b' && "bs"@[1] == 's');
    assert("bg"@.len() == 2 && "bg"@[0] == 'b' && "bg"@[1] == 'g');
    assert("ca"@.len() == 2 && "ca"@[0] == 'c' && "ca"@[1] == 'a');
    assert("ceb"@.len() == 3 && "ceb"@[0] == 'c' && "ceb"@[1] == 'e' && "ceb"@[2] == 'b');
    assert("ny"@.len() == 2 && "ny"@[0] == 'n' && "ny"@[1] == 'y');
    assert("zh"@.len() == 2 && "zh"@[0] == 'z' && "zh"@[1] == 'h');
    assert("zh-cn"@.len() == 5 && "zh-cn"@[0] == 'z' && "zh-cn"@[1] == 'h' && "zh-cn"@[2] == '-' && "zh-cn"@[3] == 'c' && "zh-cn"@[4] == 'n');
    assert("zh-hans"@.len() == 7 && "zh-hans"@[0] == 'z' && "zh-hans"@[1] == 'h' && "zh-hans"@[2] == '-' && "zh-hans"@[3] == 'h' && "zh-hans"@[4] == 'a' && "zh-hans"@[5] == 'n' && "zh-hans"@[6] == 's');
    assert("zh-tw"@.len() == 5 && "zh-tw"@[0] == 'z' && "zh-tw"@[1] == 'h' && "zh-tw"@[2] == '-' && "zh-tw"@[3] == 't' && "zh-tw"@[4] == 'w');
    assert("zh-hant"@.len() == 7 && "zh-hant"@[0] == 'z' && "zh-hant"@[1] == 'h' && "zh-hant"@[2] == '-' && "zh-hant"@[3] == 'h' && "zh-hant"@[4] == 'a' && "zh-hant"@[5] == 'n' && "zh-hant"@[6] == 't');
    assert("co"@.len() == 2 && "co"@[0] == 'c' && "co"@[1] == 'o');
    assert("hr"@.len() == 2 && "hr"@[0] == 'h' && "hr"@[1] == 'r');
    assert("cs"@.len() == 2 && "cs"@[0] == 'c' && "cs"@[1] == 's');
    assert("da"@.len() == 2 && "da"@[0] == 'd' && "da"@[1] == 'a');
    assert("nl"@.len() == 2 && "nl"@[0] == 'n' && "nl"@[1] == 'l');
    assert("en"@.len() == 2 && "en"@[0] == 'e' && "en"@[1] == 'n');
    assert("eo"@.len() == 2 && "eo"@[0] == 'e' && "eo"@[1] == 'o');
    assert("et"@.len() == 2 && "et"@[0] == 'e' && "et"@[1] == 't');
    assert("tl"@.len() == 2 && "tl"@[0] == 't' && "tl"@[1] == 'l');
    assert("fil"@.len() == 3 && "fil"@[0] == 'f' && "fil"@[1] == 'i' && "fil"@[2] == 'l');
    assert("fi"@.len() == 2 && "fi"@[0] == 'f' && "fi"@[1] == 'i');
    assert("fr"@.len() == 2 && "fr"@[0] == 'f' && "fr"@[1] == 'r');
}

/// Entries of the language table, part 2: each listed code maps to its
/// display name and prompt code.
pub proof fn language_table_entries_2()
    ensures
        language_table("fy"@) == Some(("Western Frisian"@, "fy"@)),
        language_table("gl"@) == Some(("Galician"@, "gl"@)),
        language_table("ka"@) == Some(("Georgian"@, "ka"@)),
        language_table("de"@) == Some(("German"@, "de"@)),
        language_table("el"@) == Some(("Greek"@, "el"@)),
        language_table("gu"@) == Some(("Gujarati"@, "gu"@)),
        language_table("ht"@) == Some(("Haitian"@, "ht"@)),
        language_table("ha"@) == Some(("Hausa"@, "ha"@)),
        language_table("haw"@) == Some(("Hawaiian"@, "haw"@)),
        language_table("he"@) == Some(("Hebrew"@, "he"@)),
        language_table("hi"@) == Some(("Hindi"@, "hi"@)),
        language_table("hmn"@) == Some(("Hmong"@, "hmn"@)),
        language_table("hu"@) == Some(("Hungarian"@, "hu"@)),
        language_table("is"@) == Some(("Icelandic"@, "is"@)),
        language_table("ig"@) == Some(("Igbo"@, "ig"@)),
        language_table("id"@) == Some(("Indonesian"@, "id"@)),
        language_table("ga"@) == Some(("Irish"@, "ga"@)),
        language_table("it"@) == Some(("Italian"@, "it"@)),
        language_table("ja"@) == Some(("Japanese"@, "ja"@)),
        language_table("jv"@) == Some(("Javanese"@, "jv"@)),
        language_table("jw"@) == Some(("Javanese"@, "jv"@)),
        language_table("kn"@) == Some(("Kannada"@, "kn"@)),
        language_table("kk"@) == Some(("Kazakh"@, "kk"@)),
        language_table("km"@) == Some(("Central Khmer"@, "km"@)),
        language_table("rw"@) == Some(("Kinyarwanda"@, "rw"@)),
        language_table("ko"@) == Some(("Korean"@, "ko"@)),
        language_table("ku"@) == Some(("Kurdish"@, "ku"@)),
        language_table("ky"@) == Some(("Kyrgyz"@, "ky"@)),
{
    reveal_strlit("af");
    reveal_strlit("sq");
    reveal_strlit("am");
    reveal_strlit("ar");
    reveal_strlit("hy");
    reveal_strlit("az");
    reveal_strlit("eu");
    reveal_strlit("be");
    reveal_strlit("bn");
    reveal_strlit("bs");
    reveal_strlit("bg");
    reveal_strlit("ca");
    reveal_strlit("ceb");
    reveal_strlit("ny");
    reveal_strlit("zh");
    reveal_strlit("zh-cn");
    reveal_strlit("zh-hans");
    reveal_strlit("zh-tw");
    reveal_strlit("zh-hant");
    reveal_strlit("co");
    reveal_strlit("hr");
    reveal_strlit("cs");
    reveal_strlit("da");
    reveal_strlit("nl");
    reveal_strlit("en");
    reveal_strlit("eo");
    reveal_strlit("et");
    reveal_strlit("tl");
    reveal_strlit("fil");
    reveal_strlit("fi");
    reveal_strlit("fr");
    reveal_strlit("fy");
    reveal_strlit("gl");
    reveal_strlit("ka");
    reveal_strlit("de");
    reveal_strlit("el");
    reveal_strlit("gu");
    reveal_strlit("ht");
    reveal_strlit("ha");
    reveal_strlit("haw");
    reveal_strlit("he");
    reveal_strlit("hi");
    reveal_strlit("hmn");
    reveal_strlit("hu");
    reveal_strlit("is");
    reveal_strlit("ig");
    reveal_strlit("id");
    reveal_strlit("ga");
    reveal_strlit("it");
    reveal_strlit("ja");
    reveal_strlit("jv");
    reveal_strlit("jw");
    reveal_strlit("kn");
    reveal_strlit("kk");
    reveal_strlit("km");
    reveal_strlit("rw");
    reveal_strlit("ko");
    reveal_strlit("ku");
    reveal_strlit("ky");
    assert("af"@.len() == 2 && "af"@[0] == 'a' && "af"@[1] == 'f');
    assert("sq"@.len() == 2 && "sq"@[0] == 's' && "sq"@[1] == 'q');
    assert("am"@.len() == 2 && "am"@[0] == 'a' && "am"@[1] == 'm');
    assert("ar"@.len() == 2 && "ar"@[0] == 'a' && "ar"@[1] == 'r');
    assert("hy"@.len() == 2 && "hy"@[0] == 'h' && "hy"@[1] == 'y');
    assert("az"@.len() == 2 && "az"@[0] == 'a' && "az"@[1] == 'z');
    assert("eu"@.len() == 2 && "eu"@[0] == 'e' && "eu"@[1] == 'u');
    assert("be"@.len() == 2 && "be"@[0] == 'b' && "be"@[1] == 'e');
    assert("bn"@.len() == 2 && "bn"@[0] == 'b' && "bn"@[1] == 'n');
    assert("bs"@.len() == 2 && "bs"@[0] == 'b' && "bs"@[1] == 's');
    assert("bg"@.len() == 2 && "bg"@[0] == 'b' && "bg"@[1] == 'g');
    assert("ca"@.len() == 2 && "ca"@[0] == 'c' && "ca"@[1] == 'a');
    assert("ceb"@.len() == 3 && "ceb"@[0] == 'c' && "ceb"@[1] == 'e' && "ceb"@[2] == 'b');
    assert("ny"@.len() == 2 && "ny"@[0] == 'n' && "ny"@[1] == 'y');
    assert("zh"@.len() == 2 && "zh"@[0] == 'z' && "zh"@[1] == 'h');
    assert("zh-cn"@.len() == 5 && "zh-cn"@[0] == 'z' && "zh-cn"@[1] == 'h' && "zh-cn"@[2] == '-' && "zh-cn"@[3] == 'c' && "zh-cn"@[4] == 'n');
    assert("zh-hans"@.len() == 7 && "zh-hans"@[0] == 'z' && "zh-hans"@[1] == 'h' && "zh-hans"@[2] == '-' && "zh-hans"@[3] == 'h' && "zh-hans"@[4] == 'a' && "zh-hans"@[5] == 'n' && "zh-hans"@[6] == 's');
    assert("zh-tw"@.len() == 5 && "zh-tw"@[0] == 'z' && "zh-tw"@[1] == 'h' && "zh-tw"@[2] == '-' && "zh-tw"@[3] == 't' && "zh-tw"@[4] == 'w');
    assert("zh-hant"@.len() == 7 && "zh-hant"@[0] == 'z' && "zh-hant"@[1] == 'h' && "zh-hant"@[2] == '-' && "zh-hant"@[3] == 'h' && "zh-hant"@[4] == 'a' && "zh-hant"@[5] == 'n' && "zh-hant"@[6] == 't');
    assert("co"@.len() == 2 && "co"@[0] == 'c' && "co"@[1] == 'o');
    assert("hr"@.len() == 2 && "hr"@[0] == 'h' && "hr"@[1] == 'r');
    assert("cs"@.len() == 2 && "cs"@[0] == 'c' && "cs"@[1] == 's');
    assert("da"@.len() == 2 && "da"@[0] == 'd' && "da"@[1] == 'a');
    assert("nl"@.len() == 2 && "nl"@[0] == 'n' && "nl"@[1] == 'l');
    assert("en"@.len() == 2 && "en"@[0] == 'e' && "en"@[1] == 'n');
    assert("eo"@.len() == 2 && "eo"@[0] == 'e' && "eo"@[1] == 'o');
    assert("et"@.len() == 2 && "et"@[0] == 'e' && "et"@[1] == 't');
    assert("tl"@.len() == 2 && "tl"@[0] == 't' && "tl"@[1] == 'l');
    assert("fil"@.len() == 3 && "fil"@[0] == 'f' && "fil"@[1] == 'i' && "fil"@[2] == 'l');
    assert("fi"@.len() == 2 && "fi"@[0] == 'f' && "fi"@[1] == 'i');
    assert("fr"@.len() == 2 && "fr"@[0] == 'f' && "fr"@[1] == 'r');
    assert("fy"@.len() == 2 && "fy"@[0] == 'f' && "fy"@[1] == 'y');
    assert("gl"@.len() == 2 && "gl"@[0] == 'g' && "gl"@[1] == 'l');
    assert("ka"@.len() == 2 && "ka"@[0] == 'k' && "ka"@[1] == 'a');
    assert("de"@.len() == 2 && "de"@[0] == 'd' && "de"@[1] == 'e');
    assert("el"@.len() == 2 && "el"@[0] == 'e' && "el"@[1] == 'l');
    assert("gu"@.len() == 2 && "gu"@[0] == 'g' && "gu"@[1] == 'u');
    assert("ht"@.len() == 2 && "ht"@[0] == 'h' && "ht"@[1] == 't');
    assert("ha"@.len() == 2 && "ha"@[0] == 'h' && "ha"@[1] == 'a');
    assert("haw"@.len() == 3 && "haw"@[0] == 'h' && "haw"@[1] == 'a' && "haw"@[2] == 'w');
    assert("he"@.len() == 2 && "he"@[0] == 'h' && "he"@[1] == 'e');
    assert("hi"@.len() == 2 && "hi"@[0] == 'h' && "hi"@[1] == 'i');
    assert("hmn"@.len() == 3 && "hmn"@[0] == 'h' && "hmn"@[1] == 'm' && "hmn"@[2] == 'n');
    assert("hu"@.len() == 2 && "hu"@[0] == 'h' && "hu"@[1] == 'u');
    assert("is"@.len() == 2 && "is"@[0] == 'i' && "is"@[1] == 's');
    assert("ig"@.len() == 2 && "ig"@[0] == 'i' && "ig"@[1] == 'g');
    assert("id"@.len() == 2 && "id"@[0] == 'i' && "id"@[1] == 'd');
    assert("ga"@.len() == 2 && "ga"@[0] == 'g' && "ga"@[1] == 'a');
    assert("it"@.len() == 2 && "it"@[0] == 'i' && "it"@[1] == 't');
    assert("ja"@.len() == 2 && "ja"@[0] == 'j' && "ja"@[1] == 'a');
    assert("jv"@.len() == 2 && "jv"@[0] == 'j' && "jv"@[1] == 'v');
    assert("jw"@.len() == 2 && "jw"@[0] == 'j' && "jw"@[1] == 'w');
    assert("kn"@.len() == 2 && "kn"@[0] == 'k' && "kn"@[1] == 'n');
    assert("kk"@.len() == 2 && "kk"@[0] == 'k' && "kk"@[1] == 'k');
    assert("km"@.len() == 2 && "km"@[0] == 'k' && "km"@[1] == 'm');
    assert("rw"@.len() == 2 && "rw"@[0] == 'r' && "rw"@[1] == 'w');
    assert("ko"@.len() == 2 && "ko"@[0] == 'k' && "ko"@[1] == 'o');
    assert("ku"@.len() == 2 && "ku"@[0] == 'k' && "ku"@[1] == 'u');
    assert("ky"@.len() == 2 && "ky"@[0] == 'k' && "ky"@[1] == 'y');
}

/// Entries of the language table, part 3: each listed code maps to its
/// display name and prompt code.
pub proof fn language_table_entries_3()
    ensures
        language_table("lo"@) == Some(("Lao"@, "lo"@)),
        language_table("la"@) == Some(("Latin"@, "la"@)),
        language_table("lv"@) == Some(("Latvian"@, "lv"@)),
        language_table("lt"@) == Some(("Lithuanian"@, "lt"@)),
        language_table("lb"@) == Some(("Luxembourgish"@, "lb"@)),
        language_table("mk"@) == Some(("Macedonian"@, "mk"@)),
        language_table("mg"@) == Some(("Malagasy"@, "mg"@)),
        language_table("ms"@) == Some(("Malay"@, "ms"@)),
        language_table("ml"@) == Some(("Malayalam"@, "ml"@)),
        language_table("mt"@) == Some(("Maltese"@, "mt"@)),
        language_table("mi"@) == Some(("Maori"@, "mi"@)),
        language_table("mr"@) == Some(("Marathi"@, "mr"@)),
        language_table("mn"@) == Some(("Mongolian"@, "mn"@)),
        language_table("my"@) == Some(("Burmese"@, "my"@)),
        language_table("ne"@) == Some(("Nepali"@, "ne"@)),
        language_table("no"@) == Some(("Norwegian Bokmål"@, "nb"@)),
        language_table("nb"@) == Some(("Norwegian Bokmål"@, "nb"@)),
        language_table("nn"@) == Some(("Norwegian Nynorsk"@, "nn"@)),
        language_table("or"@) == Some(("Oriya"@, "or"@)),
        language_table("ps"@) == Some(("Pashto"@, "ps"@)),
        language_table("fa"@) == Some(("Persian"@, "fa"@)),
        language_table("pl"@) == Some(("Polish"@, "pl"@)),
        language_table("pt"@) == Some(("Portuguese"@, "pt"@)),
        language_table("pa"@) == Some(("Punjabi"@, "pa"@)),
        language_table("ro"@) == Some(("Romanian"@, "ro"@)),
        language_table("ru"@) == Some(("Russian"@, "ru"@)),
        language_table("sm"@) == Some(("Samoan"@, "sm"@)),
        language_table("gd"@) == Some(("Scottish Gaelic"@, "gd"@)),
{
    reveal_strlit("af");
    reveal_strlit("sq");
    reveal_strlit("am");
    reveal_strlit("ar");
    reveal_strlit("hy");
    reveal_strlit("az");
    reveal_strlit("eu");
    reveal_strlit("be");
    reveal_strlit("bn");
    reveal_strlit("bs");
    reveal_strlit("bg");
    reveal_strlit("ca");
    reveal_strlit("ceb");
    reveal_strlit("ny");
    reveal_strlit("zh");
    reveal_strlit("zh-cn");
    reveal_strlit("zh-hans");
    reveal_strlit("zh-tw");
    reveal_strlit("zh-hant");
    reveal_strlit("co");
    reveal_strlit("hr");
    reveal_strlit("cs");
    reveal_strlit("da");
    reveal_strlit("nl");
    reveal_strlit("en");
    reveal_strlit("eo");
    reveal_strlit("et");
    reveal_strlit("tl");
    reveal_strlit("fil");
    reveal_strlit("fi");
    reveal_strlit("fr");
    reveal_strlit("fy");
    reveal_strlit("gl");
    reveal_strlit("ka");
    reveal_strlit("de");
    reveal_strlit("el");
    reveal_strlit("gu");
    reveal_strlit("ht");
    reveal_strlit("ha");
    reveal_strlit("haw");
    reveal_strlit("he");
    reveal_strlit("hi");
    reveal_strlit("hmn");
    reveal_strlit("hu");
    reveal_strlit("is");
    reveal_strlit("ig");
    reveal_strlit("id");
    reveal_strlit("ga");
    reveal_strlit("it");
    reveal_strlit("ja");
    reveal_strlit("jv");
    reveal_strlit("jw");
    reveal_strlit("kn");
    reveal_strlit("kk");
    reveal_strlit("km");
    reveal_strlit("rw");
    reveal_strlit("ko");
    reveal_strlit("ku");
    reveal_strlit("ky");
    reveal_strlit("lo");
    reveal_strlit("la");
    reveal_strlit("lv");
    reveal_strlit("lt");
    reveal_strlit("lb");
    reveal_strlit("mk");
    reveal_strlit("mg");
    reveal_strlit("ms");
    reveal_strlit("ml");
    reveal_strlit("mt");
    reveal_strlit("mi");
    reveal_strlit("mr");
    reveal_strlit("mn");
    reveal_strlit("my");
    reveal_strlit("ne");
    reveal_strlit("no");
    reveal_strlit("nb");
    reveal_strlit("nn");
    reveal_strlit("or");
    reveal_strlit("ps");
    reveal_strlit("fa");
    reveal_strlit("pl");
    reveal_strlit("pt");
    reveal_strlit("pa");
    reveal_strlit("ro");
    reveal_strlit("ru");
    reveal_strlit("sm");
    reveal_strlit("gd");
    assert("af"@.len() == 2 && "af"@[0] == 'a' && "af"@[1] == 'f');
    assert("sq"@.len() == 2 && "sq"@[0] == 's' && "sq"@[1] == 'q');
    assert("am"@.len() == 2 && "am"@[0] == 'a' && "am"@[1] == 'm');
    assert("ar"@.len() == 2 && "ar"@[0] == 'a' && "ar"@[1] == 'r');
    assert("hy"@.len() == 2 && "hy"@[0] == 'h' && "hy"@[1] == 'y');
    assert("az"@.len() == 2 && "az"@[0] == 'a' && "az"@[1] == 'z');
    assert("eu"@.len() == 2 && "eu"@[0] == 'e' && "eu"@[1] == 'u');
    assert("be"@.len() == 2 && "be"@[0] == 'b' && "be"@[1] == 'e');
    assert("bn"@.len() == 2 && "bn"@[0] == 'b' && "bn"@[1] == 'n');
    assert("bs"@.len() == 2 && "bs"@[0] == 'b' && "bs"@[1] == 's');
    assert("bg"@.len() == 2 && "bg"@[0] == 'b' && "bg"@[1] == 'g');
    assert("ca"@.len() == 2 && "ca"@[0] == 'c' && "ca"@[1] == 'a');
    assert("ceb"@.len() == 3 && "ceb"@[0] == 'c' && "ceb"@[1] == 'e' && "ceb"@[2] == 'b');
    assert("ny"@.len() == 2 && "ny"@[0] == 'n' && "ny"@[1] == 'y');
    assert("zh"@.len() == 2 && "zh"@[0] == 'z' && "zh"@[1] == 'h');
    assert("zh-cn"@.len() == 5 && "zh-cn"@[0] == 'z' && "zh-cn"@[1] == 'h' && "zh-cn"@[2] == '-' && "zh-cn"@[3] == 'c' && "zh-cn"@[4] == 'n');
    assert("zh-hans"@.len() == 7 && "zh-hans"@[0] == 'z' && "zh-hans"@[1] == 'h' && "zh-hans"@[2] == '-' && "zh-hans"@[3] == 'h' && "zh-hans"@[4] == 'a' && "zh-hans"@[5] == 'n' && "zh-hans"@[6] == 's');
    assert("zh-tw"@.len() == 5 && "zh-tw"@[0] == 'z' && "zh-tw"@[1] == 'h' && "zh-tw"@[2] == '-' && "zh-tw"@[3] == 't' && "zh-tw"@[4] == 'w');
    assert("zh-hant"@.len() == 7 && "zh-hant"@[0] == 'z' && "zh-hant"@[1] == 'h' && "zh-hant"@[2] == '-' && "zh-hant"@[3] == 'h' && "zh-hant"@[4] == 'a' && "zh-hant"@[5] == 'n' && "zh-hant"@[6] == 't');
    assert("co"@.len() == 2 && "co"@[0] == 'c' && "co"@[1] == 'o');
    assert("hr"@.len() == 2 && "hr"@[0] == 'h' && "hr"@[1] == 'r');
    assert("cs"@.len() == 2 && "cs"@[0] == 'c' && "cs"@[1] == 's');
    assert("da"@.len() == 2 && "da"@[0] == 'd' && "da"@[1] == 'a');
    assert("nl"@.len() == 2 && "nl"@[0] == 'n' && "nl"@[1] == 'l');
    assert("en"@.len() == 2 && "en"@[0] == 'e' && "en"@[1] == 'n');
    assert("eo"@.len() == 2 && "eo"@[0] == 'e' && "eo"@[1] == 'o');
    assert("et"@.len() == 2 && "et"@[0] == 'e' && "et"@[1] == 't');
    assert("tl"@.len() == 2 && "tl"@[0] == 't' && "tl"@[1] == 'l');
    assert("fil"@.len() == 3 && "fil"@[0] == 'f' && "fil"@[1] == 'i' && "fil"@[2] == 'l');
    assert("fi"@.len() == 2 && "fi"@[0] == 'f' && "fi"@[1] == 'i');
    assert("fr"@.len() == 2 && "fr"@[0] == 'f' && "fr"@[1] == 'r');
    assert("fy"@.len() == 2 && "fy"@[0] == 'f' && "fy"@[1] == 'y');
    assert("gl"@.len() == 2 && "gl"@[0] == 'g' && "gl"@[1] == 'l');
    assert("ka"@.len() == 2 && "ka"@[0] == 'k' && "ka"@[1] == 'a');
    assert("de"@.len() == 2 && "de"@[0] == 'd' && "de"@[1] == 'e');
    assert("el"@.len() == 2 && "el"@[0] == 'e' && "el"@[1] == 'l');
    assert("gu"@.len() == 2 && "gu"@[0] == 'g' && "gu"@[1] == 'u');
    assert("ht"@.len() == 2 && "ht"@[0] == 'h' && "ht"@[1] == 't');
    assert("ha"@.len() == 2 && "ha"@[0] == 'h' && "ha"@[1] == 'a');
    assert("haw"@.len() == 3 && "haw"@[0] == 'h' && "haw"@[1] == 'a' && "haw"@[2] == 'w');
    assert("he"@.len() == 2 && "he"@[0] == 'h' && "he"@[1] == 'e');
    assert("hi"@.len() == 2 && "hi"@[0] == 'h' && "hi"@[1] == 'i');
    assert("hmn"@.len() == 3 && "hmn"@[0] == 'h' && "hmn"@[1] == 'm' && "hmn"@[2] == 'n');
    assert("hu"@.len() == 2 && "hu"@[0] == 'h' && "hu"@[1] == 'u');
    assert("is"@.len() == 2 && "is"@[0] == 'i' && "is"@[1] == 's');
    assert("ig"@.len() == 2 && "ig"@[0] == 'i' && "ig"@[1] == 'g');
    assert("id"@.len() == 2 && "id"@[0] == 'i' && "id"@[1] == 'd');
    assert("ga"@.len() == 2 && "ga"@[0] == 'g' && "ga"@[1] == 'a');
    assert("it"@.len() == 2 && "it"@[0] == 'i' && "it"@[1] == 't');
    assert("ja"@.len() == 2 && "ja"@[0] == 'j' && "ja"@[1] == 'a');
    assert("jv"@.len() == 2 && "jv"@[0] == 'j' && "jv"@[1] == 'v');
    assert("jw"@.len() == 2 && "jw"@[0] == 'j' && "jw"@[1] == 'w');
    assert("kn"@.len() == 2 && "kn"@[0] == 'k' && "kn"@[1] == 'n');
    assert("kk"@.len() == 2 && "kk"@[0] == 'k' && "kk"@[1] == 'k');
    assert("km"@.len() == 2 && "km"@[0] == 'k' && "km"@[1] == 'm');
    assert("rw"@.len() == 2 && "rw"@[0] == 'r' && "rw"@[1] == 'w');
    assert("ko"@.len() == 2 && "ko"@[0] == 'k' && "ko"@[1] == 'o');
    assert("ku"@.len() == 2 && "ku"@[0] == 'k' && "ku"@[1] == 'u');
    assert("ky"@.len() == 2 && "ky"@[0] == 'k' && "ky"@[1] == 'y');
    assert("lo"@.len() == 2 && "lo"@[0] == 'l' && "lo"@[1] == 'o');
    assert("la"@.len() == 2 && "la"@[0] == 'l' && "la"@[1] == 'a');
    assert("lv"@.len() == 2 && "lv"@[0] == 'l' && "lv"@[1] == 'v');
    assert("lt"@.len() == 2 && "lt"@[0] == 'l' && "lt"@[1] == 't');
    assert("lb"@.len() == 2 && "lb"@[0] == 'l' && "lb"@[1] == 'b');
    assert("mk"@.len() == 2 && "mk"@[0] == 'm' && "mk"@[1] == 'k');
    assert("mg"@.len() == 2 && "mg"@[0] == 'm' && "mg"@[1] == 'g');
    assert("ms"@.len() == 2 && "ms"@[0] == 'm' && "ms"@[1] == 's');
    assert("ml"@.len() == 2 && "ml"@[0] == 'm' && "ml"@[1] == 'l');
    assert("mt"@.len() == 2 && "mt"@[0] == 'm' && "mt"@[1] == 't');
    assert("mi"@.len() == 2 && "mi"@[0] == 'm' && "mi"@[1] == 'i');
    assert("mr"@.len() == 2 && "mr"@[0] == 'm' && "mr"@[1] == 'r');
    assert("mn"@.len() == 2 && "mn"@[0] == 'm' && "mn"@[1] == 'n');
    assert("my"@.len() == 2 && "my"@[0] == 'm' && "my"@[1] == 'y');
    assert("ne"@.len() == 2 && "ne"@[0] == 'n' && "ne"@[1] == 'e');
    assert("no"@.len() == 2 && "no"@[0] == 'n' && "no"@[1] == 'o');
    assert("nb"@.len() == 2 && "nb"@[0] == 'n' && "nb"@[1] == 'b');
    assert("nn"@.len() == 2 && "nn"@[0] == 'n' && "nn"@[1] == 'n');
    assert("or"@.len() == 2 && "or"@[0] == 'o' && "or"@[1] == 'r');
    assert("ps"@.len() == 2 && "ps"@[0] == 'p' && "ps"@[1] == 's');
    assert("fa"@.len() == 2 && "fa"@[0] == 'f' && "fa"@[1] == 'a');
    assert("pl"@.len() == 2 && "pl"@[0] == 'p' && "pl"@[1] == 'l');
    assert("pt"@.len() == 2 && "pt"@[0] == 'p' && "pt"@[1] == 't');
    assert("pa"@.len() == 2 && "pa"@[0] == 'p' && "pa"@[1] == 'a');
    assert("ro"@.len() == 2 && "ro"@[0] == 'r' && "ro"@[1] == 'o');
    assert("ru"@.len() == 2 && "ru"@[0] == 'r' && "ru"@[1] == 'u');
    assert("sm"@.len() == 2 && "sm"@[0] == 's' && "sm"@[1] == 'm');
    assert("gd"@.len() == 2 && "gd"@[0] == 'g' && "gd"@[1] == 'd');
}

/// Entries of the language table, part 4: each listed code maps to its
/// display name and prompt code.
pub proof fn language_table_entries_4()
    ensures
        language_table("sr"@) == Some(("Serbian"@, "sr"@)),
        language_table("st"@) == Some(("Southern Sotho"@, "st"@)),
        language_table("sn"@) == Some(("Shona"@, "sn"@)),
        language_table("sd"@) == Some(("Sindhi"@, "sd"@)),
        language_table("si"@) == Some(("Sinhala"@, "si"@)),
        language_table("sk"@) == Some(("Slovak"@, "sk"@)),
        language_table("sl"@) == Some(("Slovenian"@, "sl"@)),
        language_table("so"@) == Some(("Somali"@, "so"@)),
        language_table("es"@) == Some(("Spanish"@, "es"@)),
        language_table("su"@) == Some(("Sundanese"@, "su"@)),
        language_table("sw"@) == Some(("Swahili"@, "sw"@)),
        language_table("sv"@) == Some(("Swedish"@, "sv"@)),
        language_table("tg"@) == Some(("Tajik"@, "tg"@)),
        language_table("ta"@) == Some(("Tamil"@, "ta"@)),
        language_table("te"@) == Some(("Telugu"@, "te"@)),
        language_table("th"@) == Some(("Thai"@, "th"@)),
        language_table("tr"@) == Some(("Turkish"@, "tr"@)),
        language_table("uk"@) == Some(("Ukrainian"@, "uk"@)),
        language_table("ur"@) == Some(("Urdu"@, "ur"@)),
        language_table("ug"@) == Some(("Uyghur"@, "ug"@)),
        language_table("uz"@) == Some(("Uzbek"@, "uz"@)),
        language_table("vi"@) == Some(("Vietnamese"@, "vi"@)),
        language_table("cy"@) == Some(("Welsh"@, "cy"@)),
        language_table("xh"@) == Some(("Xhosa"@, "xh"@)),
        language_table("yi"@) == Some(("Yiddish"@, "yi"@)),
        language_table("yo"@) == Some(("Yoruba"@, "yo"@)),
        language_table("zu"@) == Some(("Zulu"@, "zu"@)),
{
    reveal_strlit("af");
    reveal_strlit("sq");
    reveal_strlit("am");
    reveal_strlit("ar");
    reveal_strlit("hy");
    reveal_strlit("az");
    reveal_strlit("eu");
    reveal_strlit("be");
    reveal_strlit("bn");
    reveal_strlit("bs");
    reveal_strlit("bg");
    reveal_strlit("ca");
    reveal_strlit("ceb");
    reveal_strlit("ny");
    reveal_strlit("zh");
    reveal_strlit("zh-cn");
    reveal_strlit("zh-hans");
    reveal_strlit("zh-tw");
    reveal_strlit("zh-hant");
    reveal_strlit("co");
    reveal_strlit("hr");
    reveal_strlit("cs");
    reveal_strlit("da");
    reveal_strlit("nl");
    reveal_strlit("en");
    reveal_strlit("eo");
    reveal_strlit("et");
    reveal_strlit("tl");
    reveal_strlit("fil");
    reveal_strlit("fi");
    reveal_strlit("fr");
    reveal_strlit("fy");
    reveal_strlit("gl");
    reveal_strlit("ka");
    reveal_strlit("de");
    reveal_strlit("el");
    reveal_strlit("gu");
    reveal_strlit("ht");
    reveal_strlit("ha");
    reveal_strlit("haw");
    reveal_strlit("he");
    reveal_strlit("hi");
    reveal_strlit("hmn");
    reveal_strlit("hu");
    reveal_strlit("is");
    reveal_strlit("ig");
    reveal_strlit("id");
    reveal_strlit("ga");
    reveal_strlit("it");
    reveal_strlit("ja");
    reveal_strlit("jv");
    reveal_strlit("jw");
    reveal_strlit("kn");
    reveal_strlit("kk");
    reveal_strlit("km");
    reveal_strlit("rw");
    reveal_strlit("ko");
    reveal_strlit("ku");
    reveal_strlit("ky");
    reveal_strlit("lo");
    reveal_strlit("la");
    reveal_strlit("lv");
    reveal_strlit("lt");
    reveal_strlit("lb");
    reveal_strlit("mk");
    reveal_strlit("mg");
    reveal_strlit("ms");
    reveal_strlit("ml");
    reveal_strlit("mt");
    reveal_strlit("mi");
    reveal_strlit("mr");
    reveal_strlit("mn");
    reveal_strlit("my");
    reveal_strlit("ne");
    reveal_strlit("no");
    reveal_strlit("nb");
    reveal_strlit("nn");
    reveal_strlit("or");
    reveal_strlit("ps");
    reveal_strlit("fa");
    reveal_strlit("pl");
    reveal_strlit("pt");
    reveal_strlit("pa");
    reveal_strlit("ro");
    reveal_strlit("ru");
    reveal_strlit("sm");
    reveal_strlit("gd");
    reveal_strlit("sr");
    reveal_strlit("st");
    reveal_strlit("sn");
    reveal_strlit("sd");
    reveal_strlit("si");
    reveal_strlit("sk");
    reveal_strlit("sl");
    reveal_strlit("so");
    reveal_strlit("es");
    reveal_strlit("su");
    reveal_strlit("sw");
    reveal_strlit("sv");
    reveal_strlit("tg");
    reveal_strlit("ta");
    reveal_strlit("te");
    reveal_strlit("th");
    reveal_strlit("tr");
    reveal_strlit("uk");
    reveal_strlit("ur");
    reveal_strlit("ug");
    reveal_strlit("uz");
    reveal_strlit("vi");
    reveal_strlit("cy");
    reveal_strlit("xh");
    reveal_strlit("yi");
    reveal_strlit("yo");
    reveal_strlit("zu");
    assert("af"@.len() == 2 && "af"@[0] == 'a' && "af"@[1] == 'f');
    assert("sq"@.len() == 2 && "sq"@[0] == 's' && "sq"@[1] == 'q');
    assert("am"@.len() == 2 && "am"@[0] == 'a' && "am"@[1] == 'm');
    assert("ar"@.len() == 2 && "ar"@[0] == 'a' && "ar"@[1] == 'r');
    assert("hy"@.len() == 2 && "hy"@[0] == 'h' && "hy"@[1] == 'y');
    assert("az"@.len() == 2 && "az"@[0] == 'a' && "az"@[1] == 'z');
    assert("eu"@.len() == 2 && "eu"@[0] == 'e' && "eu"@[1] == 'u');
    assert("be"@.len() == 2 && "be"@[0] == 'b' && "be"@[1] == 'e');
    assert("bn"@.len() == 2 && "bn"@[0] == 'b' && "bn"@[1] == 'n');
    assert("bs"@.len() == 2 && "bs"@[0] == 'b' && "bs"@[1] == 's');
    assert("bg"@.len() == 2 && "bg"@[0] == 'b' && "bg"@[1] == 'g');
    assert("ca"@.len() == 2 && "ca"@[0] == 'c' && "ca"@[1] == 'a');
    assert("ceb"@.len() == 3 && "ceb"@[0] == 'c' && "ceb"@[1] == 'e' && "ceb"@[2] == 'b');
    assert("ny"@.len() == 2 && "ny"@[0] == 'n' && "ny"@[1] == 'y');
    assert("zh"@.len() == 2 && "zh"@[0] == 'z' && "zh"@[1] == 'h');
    assert("zh-cn"@.len() == 5 && "zh-cn"@[0] == 'z' && "zh-cn"@[1] == 'h' && "zh-cn"@[2] == '-' && "zh-cn"@[3] == 'c' && "zh-cn"@[4] == 'n');
    assert("zh-hans"@.len() == 7 && "zh-hans"@[0] == 'z' && "zh-hans"@[1] == 'h' && "zh-hans"@[2] == '-' && "zh-hans"@[3] == 'h' && "zh-hans"@[4] == 'a' && "zh-hans"@[5] == 'n' && "zh-hans"@[6] == 's');
    assert("zh-tw"@.len() == 5 && "zh-tw"@[0] == 'z' && "zh-tw"@[1] == 'h' && "zh-tw"@[2] == '-' && "zh-tw"@[3] == 't' && "zh-tw"@[4] == 'w');
    assert("zh-hant"@.len() == 7 && "zh-hant"@[0] == 'z' && "zh-hant"@[1] == 'h' && "zh-hant"@[2] == '-' && "zh-hant"@[3] == 'h' && "zh-hant"@[4] == 'a' && "zh-hant"@[5] == 'n' && "zh-hant"@[6] == 't');
    assert("co"@.len() == 2 && "co"@[0] == 'c' && "co"@[1] == 'o');
    assert("hr"@.len() == 2 && "hr"@[0] == 'h' && "hr"@[1] == 'r');
    assert("cs"@.len() == 2 && "cs"@[0] == 'c' && "cs"@[1] == 's');
    assert("da"@.len() == 2 && "da"@[0] == 'd' && "da"@[1] == 'a');
    assert("nl"@.len() == 2 && "nl"@[0] == 'n' && "nl"@[1] == 'l');
    assert("en"@.len() == 2 && "en"@[0] == 'e' && "en"@[1] == 'n');
    assert("eo"@.len() == 2 && "eo"@[0] == 'e' && "eo"@[1] == 'o');
    assert("et"@.len() == 2 && "et"@[0] == 'e' && "et"@[1] == 't');
    assert("tl"@.len() == 2 && "tl"@[0] == 't' && "tl"@[1] == 'l');
    assert("fil"@.len() == 3 && "fil"@[0] == 'f' && "fil"@[1] == 'i' && "fil"@[2] == 'l');
    assert("fi"@.len() == 2 && "fi"@[0] == 'f' && "fi"@[1] == 'i');
    assert("fr"@.len() == 2 && "fr"@[0] == 'f' && "fr"@[1] == 'r');
    assert("fy"@.len() == 2 && "fy"@[0] == 'f' && "fy"@[1] == 'y');
    assert("gl"@.len() == 2 && "gl"@[0] == 'g' && "gl"@[1] == 'l');
    assert("ka"@.len() == 2 && "ka"@[0] == 'k' && "ka"@[1] == 'a');
    assert("de"@.len() == 2 && "de"@[0] == 'd' && "de"@[1] == 'e');
    assert("el"@.len() == 2 && "el"@[0] == 'e' && "el"@[1] == 'l');
    assert("gu"@.len() == 2 && "gu"@[0] == 'g' && "gu"@[1] == 'u');
    assert("ht"@.len() == 2 && "ht"@[0] == 'h' && "ht"@[1] == 't');
    assert("ha"@.len() == 2 && "ha"@[0] == 'h' && "ha"@[1] == 'a');
    assert("haw"@.len() == 3 && "haw"@[0] == 'h' && "haw"@[1] == 'a' && "haw"@[2] == 'w');
    assert("he"@.len() == 2 && "he"@[0] == 'h' && "he"@[1] == 'e');
    assert("hi"@.len() == 2 && "hi"@[0] == 'h' && "hi"@[1] == 'i');
    assert("hmn"@.len() == 3 && "hmn"@[0] == 'h' && "hmn"@[1] == 'm' && "hmn"@[2] == 'n');
    assert("hu"@.len() == 2 && "hu"@[0] == 'h' && "hu"@[1] == 'u');
    assert("is"@.len() == 2 && "is"@[0] == 'i' && "is"@[1] == 's');
    assert("ig"@.len() == 2 && "ig"@[0] == 'i' && "ig"@[1] == 'g');
    assert("id"@.len() == 2 && "id"@[0] == 'i' && "id"@[1] == 'd');
    assert("ga"@.len() == 2 && "ga"@[0] == 'g' && "ga"@[1] == 'a');
    assert("it"@.len() == 2 && "it"@[0] == 'i' && "it"@[1] == 't');
    assert("ja"@.len() == 2 && "ja"@[0] == 'j' && "ja"@[1] == 'a');
    assert("jv"@.len() == 2 && "jv"@[0] == 'j' && "jv"@[1] == 'v');
    assert("jw"@.len() == 2 && "jw"@[0] == 'j' && "jw"@[1] == 'w');
    assert("kn"@.len() == 2 && "kn"@[0] == 'k' && "kn"@[1] == 'n');
    assert("kk"@.len() == 2 && "kk"@[0] == 'k' && "kk"@[1] == 'k');
    assert("km"@.len() == 2 && "km"@[0] == 'k' && "km"@[1] == 'm');
    assert("rw"@.len() == 2 && "rw"@[0] == 'r' && "rw"@[1] == 'w');
    assert("ko"@.len() == 2 && "ko"@[0] == 'k' && "ko"@[1] == 'o');
    assert("ku"@.len() == 2 && "ku"@[0] == 'k' && "ku"@[1] == 'u');
    assert("ky"@.len() == 2 && "ky"@[0] == 'k' && "ky"@[1] == 'y');
    assert("lo"@.len() == 2 && "lo"@[0] == 'l' && "lo"@[1] == 'o');
    assert("la"@.len() == 2 && "la"@[0] == 'l' && "la"@[1] == 'a');
    assert("lv"@.len() == 2 && "lv"@[0] == 'l' && "lv"@[1] == 'v');
    assert("lt"@.len() == 2 && "lt"@[0] == 'l' && "lt"@[1] == 't');
    assert("lb"@.len() == 2 && "lb"@[0] == 'l' && "lb"@[1] == 'b');
    assert("mk"@.len() == 2 && "mk"@[0] == 'm' && "mk"@[1] == 'k');
    assert("mg"@.len() == 2 && "mg"@[0] == 'm' && "mg"@[1] == 'g');
    assert("ms"@.len() == 2 && "ms"@[0] == 'm' && "ms"@[1] == 's');
    assert("ml"@.len() == 2 && "ml"@[0] == 'm' && "ml"@[1] == 'l');
    assert("mt"@.len() == 2 && "mt"@[0] == 'm' && "mt"@[1] == 't');
    assert("mi"@.len() == 2 && "mi"@[0] == 'm' && "mi"@[1] == 'i');
    assert("mr"@.len() == 2 && "mr"@[0] == 'm' && "mr"@[1] == 'r');
    assert("mn"@.len() == 2 && "mn"@[0] == 'm' && "mn"@[1] == 'n');
    assert("my"@.len() == 2 && "my"@[0] == 'm' && "my"@[1] == 'y');
    assert("ne"@.len() == 2 && "ne"@[0] == 'n' && "ne"@[1] == 'e');
    assert("no"@.len() == 2 && "no"@[0] == 'n' && "no"@[1] == 'o');
    assert("nb"@.len() == 2 && "nb"@[0] == 'n' && "nb"@[1] == 'b');
    assert("nn"@.len() == 2 && "nn"@[0] == 'n' && "nn"@[1] == 'n');
    assert("or"@.len() == 2 && "or"@[0] == 'o' && "or"@[1] == 'r');
    assert("ps"@.len() == 2 && "ps"@[0] == 'p' && "ps"@[1] == 's');
    assert("fa"@.len() == 2 && "fa"@[0] == 'f' && "fa"@[1] == 'a');
    assert("pl"@.len() == 2 && "pl"@[0] == 'p' && "pl"@[1] == 'l');
    assert("pt"@.len() == 2 && "pt"@[0] == 'p' && "pt"@[1] == 't');
    assert("pa"@.len() == 2 && "pa"@[0] == 'p' && "pa"@[1] == 'a');
    assert("ro"@.len() == 2 && "ro"@[0] == 'r' && "ro"@[1] == 'o');
    assert("ru"@.len() == 2 && "ru"@[0] == 'r' && "ru"@[1] == 'u');
    assert("sm"@.len() == 2 && "sm"@[0] == 's' && "sm"@[1] == 'm');
    assert("gd"@.len() == 2 && "gd"@[0] == 'g' && "gd"@[1] == 'd');
    assert("sr"@.len() == 2 && "sr"@[0] == 's' && "sr"@[1] == 'r');
    assert("st"@.len() == 2 && "st"@[0] == 's' && "st"@[1] == 't');
    assert("sn"@.len() == 2 && "sn"@[0] == 's' && "sn"@[1] == 'n');
    assert("sd"@.len() == 2 && "sd"@[0] == 's' && "sd"@[1] == 'd');
    assert("si"@.len() == 2 && "si"@[0] == 's' && "si"@[1] == 'i');
    assert("sk"@.len() == 2 && "sk"@[0] == 's' && "sk"@[1] == 'k');
    assert("sl"@.len() == 2 && "sl"@[0] == 's' && "sl"@[1] == 'l');
    assert("so"@.len() == 2 && "so"@[0] == 's' && "so"@[1] == 'o');
    assert("es"@.len() == 2 && "es"@[0] == 'e' && "es"@[1] == 's');
    assert("su"@.len() == 2 && "su"@[0] == 's' && "su"@[1] == 'u');
    assert("sw"@.len() == 2 && "sw"@[0] == 's' && "sw"@[1] == 'w');
    assert("sv"@.len() == 2 && "sv"@[0] == 's' && "sv"@[1] == 'v');
    assert("tg"@.len() == 2 && "tg"@[0] == 't' && "tg"@[1] == 'g');
    assert("ta"@.len() == 2 && "ta"@[0] == 't' && "ta"@[1] == 'a');
    assert("te"@.len() == 2 && "te"@[0] == 't' && "te"@[1] == 'e');
    assert("th"@.len() == 2 && "th"@[0] == 't' && "th"@[1] == 'h');
    assert("tr"@.len() == 2 && "tr"@[0] == 't' && "tr"@[1] == 'r');
    assert("uk"@.len() == 2 && "uk"@[0] == 'u' && "uk"@[1] == 'k');
    assert("ur"@.len() == 2 && "ur"@[0] == 'u' && "ur"@[1] == 'r');
    assert("ug"@.len() == 2 && "ug"@[0] == 'u' && "ug"@[1] == 'g');
    assert("uz"@.len() == 2 && "uz"@[0] == 'u' && "uz"@[1] == 'z');
    assert("vi"@.len() == 2 && "vi"@[0] == 'v' && "vi"@[1] == 'i');
    assert("cy"@.len() == 2 && "cy"@[0] == 'c' && "cy"@[1] == 'y');
    assert("xh"@.len() == 2 && "xh"@[0] == 'x' && "xh"@[1] == 'h');
    assert("yi"@.len() == 2 && "yi"@[0] == 'y' && "yi"@[1] == 'i');
    assert("yo"@.len() == 2 && "yo"@[0] == 'y' && "yo"@[1] == 'o');
    assert("zu"@.len() == 2 && "zu"@[0] == 'z' && "zu"@[1] == 'u');
}

} // verus!
