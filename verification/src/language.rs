//! The display languages and their string dictionaries. The presentation
//! layer renders these; the texts that carry counters or file names are built
//! here, with their exact contents stated.

use vstd::prelude::*;

use crate::decimal::{dec_str, usize_to_string};

verus! {

/// A supported display language.
#[derive(Debug, Clone, Copy, PartialEq, Eq, Structural)]
pub enum Language {
    Chinese,
    English,
}

/// The fixed strings of one language.
#[derive(Clone, Copy)]
pub struct LangDict {
    pub title: &'static str,
    pub status_preparing: &'static str,
    pub status_complete: &'static str,
    pub status_failed: &'static str,
    pub button_ok: &'static str,
    pub usage: &'static str,
    pub lang: Language,
}

/// The text reporting how many files have been replaced.
pub open spec fn replacing_files_text(lang: Language, current: int, total: int) -> Seq<char> {
    match lang {
        Language::Chinese => "正在替换文件 ("@ + dec_str(current) + "/"@ + dec_str(total)
            + ")..."@,
        Language::English => "Replacing files ("@ + dec_str(current) + "/"@ + dec_str(total)
            + ")..."@,
    }
}

/// The text naming the file being processed.
pub open spec fn processing_text(lang: Language, file_name: Seq<char>) -> Seq<char> {
    match lang {
        Language::Chinese => "正在处理: "@ + file_name,
        Language::English => "Processing: "@ + file_name,
    }
}

impl LangDict {
    /// The localized replacement-progress line, e.g. counter 3 of 7.
    pub fn status_replacing_files(&self, current: usize, total: usize) -> (r: String)
        ensures
            r@ == replacing_files_text(self.lang, current as int, total as int),
    {
        let head: &'static str = match self.lang {
            Language::Chinese => "正在替换文件 (",
            Language::English => "Replacing files (",
        };
        let cur = usize_to_string(current);
        let tot = usize_to_string(total);
        let mut s = String::from_str(head);
        s.append(cur.as_str());
        s.append("/");
        s.append(tot.as_str());
        s.append(")...");
        s
    }

    /// The localized line naming the file being processed.
    pub fn status_processing(&self, file_name: &str) -> (r: String)
        ensures
            r@ == processing_text(self.lang, file_name@),
    {
        let head: &'static str = match self.lang {
            Language::Chinese => "正在处理: ",
            Language::English => "Processing: ",
        };
        let mut s = String::from_str(head);
        s.append(file_name);
        s
    }
}

/// Whether `d` is the dictionary of `lang`: every field of it pinned to
/// that language's text.
pub open spec fn dict_of(lang: Language, d: LangDict) -> bool {
    &&& d.lang == lang
    &&& match lang {
        Language::Chinese => {
            &&& d.title@ == "软件更新"@
            &&& d.status_preparing@ == "正在准备更新..."@
            &&& d.status_complete@ == "软件更新已完成！"@
            &&& d.status_failed@ == "软件更新失败！"@
            &&& d.button_ok@ == "确定"@
            &&& d.usage@ == "用法: {} <更新包路径> [zh|en]"@
        },
        Language::English => {
            &&& d.title@ == "Software Update"@
            &&& d.status_preparing@ == "Preparing update..."@
            &&& d.status_complete@ == "Software update completed!"@
            &&& d.status_failed@ == "Software update failed!"@
            &&& d.button_ok@ == "OK"@
            &&& d.usage@ == "Usage: {} <update_package_path> [zh|en]"@
        },
    }
}

/// The dictionary of one language.
pub fn get_dict(lang: Language) -> (d: LangDict)
    ensures
        dict_of(lang, d),
{
    match lang {
        Language::Chinese => LangDict {
            title: "软件更新",
            status_preparing: "正在准备更新...",
            status_complete: "软件更新已完成！",
            status_failed: "软件更新失败！",
            button_ok: "确定",
            usage: "用法: {} <更新包路径> [zh|en]",
            lang: Language::Chinese,
        },
        Language::English => LangDict {
            title: "Software Update",
            status_preparing: "Preparing update...",
            status_complete: "Software update completed!",
            status_failed: "Software update failed!",
            button_ok: "OK",
            usage: "Usage: {} <update_package_path> [zh|en]",
            lang: Language::English,
        },
    }
}

/// Whether `a` read case-insensitively (ASCII) equals the character `b`.
pub open spec fn chars_match_ci(a: char, b: char) -> bool {
    a == b || (65 <= a as u32 && a as u32 <= 90 && a as u32 + 32 == b as u32)
}

/// Whether `s` matches the lower-case word `t` up to ASCII case.
pub open spec fn matches_ci(s: Seq<char>, t: Seq<char>) -> bool {
    s.len() == t.len() && forall|i: int| 0 <= i < s.len() ==> chars_match_ci(s[i], #[trigger] t[i])
}

/// What [`parse_language`] returns: the language whose selector the string
/// names, case-insensitively, or nothing.
pub open spec fn parse_language_spec(s: Seq<char>) -> Option<Language> {
    if matches_ci(s, "zh"@) || matches_ci(s, "chinese"@) {
        Some(Language::Chinese)
    } else if matches_ci(s, "en"@) || matches_ci(s, "english"@) {
        Some(Language::English)
    } else {
        None
    }
}

/// Whether `s` matches the lower-case word `t` up to ASCII case.
fn eq_ci(s: &str, t: &str) -> (r: bool)
    ensures
        r == matches_ci(s@, t@),
{
    let ns = s.unicode_len();
    let nt = t.unicode_len();
    if ns != nt {
        return false;
    }
    let mut j: usize = 0;
    while j < ns
        invariant
            j <= ns,
            ns == s@.len(),
            ns == t@.len(),
            forall|k: int| 0 <= k < j ==> chars_match_ci(s@[k], #[trigger] t@[k]),
        decreases ns - j,
    {
        let a = s.get_char(j);
        let b = t.get_char(j);
        let au = a as u32;
        let bu = b as u32;
        if !(a == b || (65 <= au && au <= 90 && au + 32 == bu)) {
            return false;
        }
        j += 1;
    }
    true
}

/// Parses a language selector: `zh`/`chinese` or `en`/`english`, in any
/// ASCII case.
pub fn parse_language(lang_str: &str) -> (r: Option<Language>)
    ensures
        r == parse_language_spec(lang_str@),
{
    if eq_ci(lang_str, "zh") || eq_ci(lang_str, "chinese") {
        Some(Language::Chinese)
    } else if eq_ci(lang_str, "en") || eq_ci(lang_str, "english") {
        Some(Language::English)
    } else {
        None
    }
}

} // verus!
