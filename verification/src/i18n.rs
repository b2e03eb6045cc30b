//! The user-facing strings of the front ends, and how a language is chosen
//! from locale tags or from an `Accept-Language` header.
use vstd::prelude::*;
use vstd::string::StrSliceExecFns;
use crate::text::{
    lower_starts_with, lower_eq, trim, before, first_index, lower_has_prefix, lower_equals,
    find_char, trimmed, lemma_first_index_bounds,
};

verus! {

/// The user-facing strings of one language.
#[derive(Clone, Copy, Debug, PartialEq, Eq)]
pub struct I18n {
    /// Button under a conversion result.
    pub another_one: &'static str,
    /// Button that attaches a file for conversion.
    pub attach_file: &'static str,
    /// Copy button after it was clicked.
    pub copied: &'static str,
    /// Copy button.
    pub copy: &'static str,
    /// Button that downloads the Nix expression.
    pub download_nix: &'static str,
    /// Language tag reported to the page or window.
    pub lang: &'static str,
    /// Message shown where JavaScript is unavailable.
    pub noscript: &'static str,
    /// The "skip to content" button.
    pub skip_to_content: &'static str,
    /// Button that submits text for conversion.
    pub submit: &'static str,
}

/// The translation that a locale tag asks for: Brazilian Portuguese for a tag
/// that begins with `pt`, American English for one that begins with `en`
/// (letters compared ASCII case-insensitively), none for any other tag.
pub open spec fn tag_translation(tag: Seq<char>) -> Option<I18n> {
    if lower_starts_with(tag, "pt"@) {
        Some(I18n::portuguese())
    } else if lower_starts_with(tag, "en"@) {
        Some(I18n::english())
    } else {
        None
    }
}

/// The translation for a list of locale tags in order of preference: that of
/// the first tag that asks for one, American English where none does.
pub open spec fn locales_choice(tags: Seq<Seq<char>>) -> I18n
    decreases tags.len(),
{
    if tags.len() == 0 {
        I18n::english()
    } else {
        match tag_translation(tags[0]) {
            Some(t) => t,
            None => locales_choice(tags.drop_first()),
        }
    }
}

/// The translation that one entry of an `Accept-Language` header asks for.
/// The language is what precedes the entry's first `;` (its quality factor
/// is ignored), without surrounding white space; `pt-br` and `pt` ask for
/// Brazilian Portuguese, `en-us` and `en` for American English, letters
/// compared ASCII case-insensitively.
pub open spec fn entry_translation(entry: Seq<char>) -> Option<I18n> {
    let language = trim(before(entry, ';'));
    if lower_eq(language, "pt-br"@) || lower_eq(language, "pt"@) {
        Some(I18n::portuguese())
    } else if lower_eq(language, "en-us"@) || lower_eq(language, "en"@) {
        Some(I18n::english())
    } else {
        None
    }
}

/// The translation for an `Accept-Language` header: that of its first
/// comma-separated entry that asks for one, American English where none does.
pub open spec fn header_choice(header: Seq<char>) -> I18n
    decreases header.len(),
{
    let i = first_index(header, ',');
    match entry_translation(header.take(i as int)) {
        Some(t) => t,
        None => if i < header.len() {
            header_choice(header.skip(i + 1int))
        } else {
            I18n::english()
        },
    }
}

/// The strings of a list of `&str`, as sequences of characters.
pub open spec fn tags_of(locales: Seq<&str>) -> Seq<Seq<char>> {
    locales.map_values(|s: &str| s@)
}

impl I18n {
    /// The strings of American English.
    pub open spec fn english() -> I18n {
        I18n {
            another_one: "Another one?",
            attach_file: "Attach file",
            copied: "Copied!",
            copy: "Copy to clipboard",
            download_nix: "Download as .nix",
            lang: "en-US",
            noscript: "This website requires JavaScript",
            skip_to_content: "Skip to content",
            submit: "Submit",
        }
    }

    /// The strings of Brazilian Portuguese.
    pub open spec fn portuguese() -> I18n {
        I18n {
            another_one: "Mais um?",
            attach_file: "Anexar arquivo",
            copied: "Copiado!",
            copy: "Copiar para a \u{e1}rea de transfer\u{ea}ncia",
            download_nix: "Baixar como .nix",
            lang: "pt-BR",
            noscript: "Este site requer JavaScript",
            skip_to_content: "Ir para o conte\u{fa}do principal",
            submit: "Enviar",
        }
    }

    /// American English.
    pub fn en_us() -> (r: I18n)
        ensures
            r == I18n::english(),
    {
        I18n {
            another_one: "Another one?",
            attach_file: "Attach file",
            copied: "Copied!",
            copy: "Copy to clipboard",
            download_nix: "Download as .nix",
            lang: "en-US",
            noscript: "This website requires JavaScript",
            skip_to_content: "Skip to content",
            submit: "Submit",
        }
    }

    /// Brazilian Portuguese.
    pub fn pt_br() -> (r: I18n)
        ensures
            r == I18n::portuguese(),
    {
        I18n {
            another_one: "Mais um?",
            attach_file: "Anexar arquivo",
            copied: "Copiado!",
            copy: "Copiar para a \u{e1}rea de transfer\u{ea}ncia",
            download_nix: "Baixar como .nix",
            lang: "pt-BR",
            noscript: "Este site requer JavaScript",
            skip_to_content: "Ir para o conte\u{fa}do principal",
            submit: "Enviar",
        }
    }

    /// The translation asked for by one locale tag, if any.
    fn for_tag(tag: &str) -> (r: Option<I18n>)
        ensures
            r == tag_translation(tag@),
    {
        if lower_has_prefix(tag, "pt") {
            Some(Self::pt_br())
        } else if lower_has_prefix(tag, "en") {
            Some(Self::en_us())
        } else {
            None
        }
    }

    /// Picks the most suitable translation for locale tags given in order of
    /// preference.
    pub fn from_locales(locales: &[&str]) -> (r: I18n)
        ensures
            r == locales_choice(tags_of(locales@)),
    {
        let ghost tags = tags_of(locales@);
        let n = locales.len();
        let mut i: usize = 0;
        assert(tags.skip(0) =~= tags);
        while i < n
            invariant
                n == locales@.len(),
                tags == tags_of(locales@),
                i <= n,
                locales_choice(tags) == locales_choice(tags.skip(i as int)),
            decreases n - i,
        {
            let tag: &str = locales[i];
            assert(tags.skip(i as int)[0] == tag@);
            match Self::for_tag(tag) {
                Some(t) => {
                    return t;
                },
                None => {},
            }
            assert(tags.skip(i as int).drop_first() =~= tags.skip(i + 1));
            i += 1;
        }
        assert(tags.skip(n as int).len() == 0);
        Self::en_us()
    }

    /// Picks the most suitable translation for one locale tag.
    pub fn from_locale(locale: &str) -> (r: I18n)
        ensures
            r == locales_choice(seq![locale@]),
    {
        let locales: [&str; 1] = [locale];
        let r = Self::from_locales(locales.as_slice());
        assert(tags_of(locales@) =~= seq![locale@]);
        r
    }

    /// The translation of the entry of an `Accept-Language` header, if it asks for one.
    fn for_entry(entry: &str) -> (r: Option<I18n>)
        ensures
            r == entry_translation(entry@),
    {
        let semicolon = find_char(entry, ';');
        proof {
            lemma_first_index_bounds(entry@, ';');
        }
        let language = trimmed(entry.substring_char(0, semicolon));
        if lower_equals(language, "pt-br") || lower_equals(language, "pt") {
            Some(Self::pt_br())
        } else if lower_equals(language, "en-us") || lower_equals(language, "en") {
            Some(Self::en_us())
        } else {
            None
        }
    }

    /// Picks the translation for the value of an `Accept-Language` header;
    /// American English where there is no header.
    pub fn from_accept_language(header: Option<&str>) -> (r: I18n)
        ensures
            r == match header {
                None => I18n::english(),
                Some(h) => header_choice(h@),
            },
    {
        match header {
            None => Self::en_us(),
            Some(h) => {
                let mut rest: &str = h;
                loop
                    invariant
                        header == Some(h),
                        header_choice(h@) == header_choice(rest@),
                    decreases rest@.len(),
                {
                    let n = rest.unicode_len();
                    let comma = find_char(rest, ',');
                    proof {
                        lemma_first_index_bounds(rest@, ',');
                    }
                    let entry = rest.substring_char(0, comma);
                    assert(entry@ =~= rest@.take(comma as int));
                    match Self::for_entry(entry) {
                        Some(t) => {
                            return t;
                        },
                        None => {},
                    }
                    if comma == n {
                        return Self::en_us();
                    }
                    rest = rest.substring_char(comma + 1, n);
                }
            },
        }
    }
}

/// Some tag of `tags` asks for a translation.
pub open spec fn some_tag_decides(tags: Seq<Seq<char>>) -> bool {
    exists|i: int| 0 <= i < tags.len() && (#[trigger] tag_translation(tags[i])) is Some
}

/// A single locale tag gives the translation it asks for, or American English.
pub proof fn law_single_locale(tag: Seq<char>)
    ensures
        locales_choice(seq![tag]) == match tag_translation(tag) {
            Some(t) => t,
            None => I18n::english(),
        },
{
    assert(seq![tag].drop_first() =~= Seq::<Seq<char>>::empty());
    assert(locales_choice(Seq::<Seq<char>>::empty()) == I18n::english());
}

/// Preference order: a later list of tags matters only where no tag of the
/// earlier list asks for a translation.
pub proof fn law_first_preference_wins(first: Seq<Seq<char>>, later: Seq<Seq<char>>)
    ensures
        locales_choice(first + later) == if some_tag_decides(first) {
            locales_choice(first)
        } else {
            locales_choice(later)
        },
    decreases first.len(),
{
    if first.len() == 0 {
        assert(first + later =~= later);
    } else {
        assert((first + later)[0] == first[0]);
        assert((first + later).drop_first() =~= first.drop_first() + later);
        law_first_preference_wins(first.drop_first(), later);
        if tag_translation(first[0]) is None {
            if some_tag_decides(first) {
                let i = choose|i: int|
                    0 <= i < first.len() && (#[trigger] tag_translation(first[i])) is Some;
                assert(first.drop_first()[i - 1] == first[i]);
            }
            if some_tag_decides(first.drop_first()) {
                let i = choose|i: int|
                    0 <= i < first.drop_first().len() && (#[trigger] tag_translation(
                        first.drop_first()[i],
                    )) is Some;
                assert(first[i + 1] == first.drop_first()[i]);
            }
        } else {
            assert(tag_translation(first[0]) is Some);
        }
    }
}

/// Where no tag asks for a translation, American English is chosen.
pub proof fn law_fallback_is_english(tags: Seq<Seq<char>>)
    requires
        !some_tag_decides(tags),
    ensures
        locales_choice(tags) == I18n::english(),
{
    law_first_preference_wins(tags, Seq::empty());
    assert(tags + Seq::<Seq<char>>::empty() =~= tags);
}

/// The entries of an `Accept-Language` header are read in order: the first
/// one decides where it asks for a translation, else the rest of the header.
pub proof fn law_header_entries_in_order(entry: Seq<char>, rest: Seq<char>)
    requires
        !entry.contains(','),
    ensures
        header_choice(entry + seq![','] + rest) == match entry_translation(entry) {
            Some(t) => t,
            None => header_choice(rest),
        },
{
    let h = entry + seq![','] + rest;
    assert forall|j: int| 0 <= j < entry.len() implies h[j] != ',' by {
        assert(h[j] == entry[j]);
        if h[j] == ',' {
            assert(entry.contains(','));
        }
    }
    crate::text::lemma_first_index(h, ',', entry.len() as int);
    assert(h.take(entry.len() as int) =~= entry);
    assert(h.skip(entry.len() + 1int) =~= rest);
}

/// The quality factor of an `Accept-Language` entry, and anything else after
/// its first `;`, does not change the language it asks for.
pub proof fn law_quality_factor_ignored(language: Seq<char>, parameters: Seq<char>)
    requires
        !language.contains(';'),
    ensures
        entry_translation(language + seq![';'] + parameters) == entry_translation(language),
{
    let entry = language + seq![';'] + parameters;
    assert forall|j: int| 0 <= j < language.len() implies entry[j] != ';' by {
        assert(entry[j] == language[j]);
        if entry[j] == ';' {
            assert(language.contains(';'));
        }
    }
    crate::text::lemma_first_index(entry, ';', language.len() as int);
    assert(before(entry, ';') =~= language);
    assert forall|j: int| 0 <= j < language.len() implies language[j] != ';' by {
        if language[j] == ';' {
            assert(language.contains(';'));
        }
    }
    crate::text::lemma_first_index(language, ';', language.len() as int);
    assert(before(language, ';') =~= language);
}

/// `target` is a language name: lowercase ASCII letters and `-`, not empty.
pub open spec fn is_language_name(target: Seq<char>) -> bool {
    &&& target.len() > 0
    &&& forall|i: int| 0 <= i < target.len() ==> ('a' <= #[trigger] target[i] && target[i] <= 'z')
        || target[i] == '-'
}

/// An entry that is, but for letter case, a language name has no `;`, `,`
/// or surrounding white space: its language is the whole entry.
proof fn lemma_entry_is_its_language(entry: Seq<char>, target: Seq<char>)
    requires
        lower_eq(entry, target),
        is_language_name(target),
    ensures
        trim(before(entry, ';')) == entry,
        !entry.contains(','),
{
    assert forall|j: int| 0 <= j < entry.len() implies entry[j] != ';' && entry[j] != ','
        && !crate::text::is_white_space(entry[j]) by {
        assert(crate::text::lower_code(entry[j]) == target[j] as u32);
    }
    crate::text::lemma_first_index(entry, ';', entry.len() as int);
    assert(before(entry, ';') =~= entry);
    assert(crate::text::trim_start(entry) == entry);
    assert(entry.last() == entry[entry.len() - 1]);
    assert(crate::text::trim_end(entry) == entry);
    if entry.contains(',') {
        let j = choose|j: int| 0 <= j < entry.len() && entry[j] == ',';
        assert(entry[j] != ',');
    }
}

/// An entry with no `,` decides the header it begins, where it asks for a
/// translation: both alone and followed by more entries.
proof fn lemma_deciding_entry(entry: Seq<char>, rest: Seq<char>, t: I18n)
    requires
        !entry.contains(','),
        entry_translation(entry) == Some(t),
    ensures
        header_choice(entry) == t,
        header_choice(entry + seq![','] + rest) == t,
{
    law_header_entries_in_order(entry, rest);
    assert forall|j: int| 0 <= j < entry.len() implies entry[j] != ',' by {
        if entry[j] == ',' {
            assert(entry.contains(','));
        }
    }
    crate::text::lemma_first_index(entry, ',', entry.len() as int);
    assert(entry.take(entry.len() as int) =~= entry);
}

/// An `Accept-Language` header whose first entry is `en-US` or `en` (in any
/// letter case) gets American English, and one whose first entry is `pt-BR`
/// or `pt` gets Brazilian Portuguese, whatever entries follow.
pub proof fn law_header_first_language_decides(entry: Seq<char>, rest: Seq<char>)
    ensures
        lower_eq(entry, "en-us"@) || lower_eq(entry, "en"@) ==> {
            &&& header_choice(entry) == I18n::english()
            &&& header_choice(entry + seq![','] + rest) == I18n::english()
        },
        lower_eq(entry, "pt-br"@) || lower_eq(entry, "pt"@) ==> {
            &&& header_choice(entry) == I18n::portuguese()
            &&& header_choice(entry + seq![','] + rest) == I18n::portuguese()
        },
{
    reveal_strlit("en-us");
    reveal_strlit("en");
    reveal_strlit("pt-br");
    reveal_strlit("pt");
    assert(is_language_name("en-us"@));
    assert(is_language_name("en"@));
    assert(is_language_name("pt-br"@));
    assert(is_language_name("pt"@));
    if lower_eq(entry, "en-us"@) {
        lemma_entry_is_its_language(entry, "en-us"@);
    } else if lower_eq(entry, "en"@) {
        lemma_entry_is_its_language(entry, "en"@);
    } else if lower_eq(entry, "pt-br"@) {
        lemma_entry_is_its_language(entry, "pt-br"@);
    } else if lower_eq(entry, "pt"@) {
        lemma_entry_is_its_language(entry, "pt"@);
    }
    if lower_eq(entry, "en-us"@) || lower_eq(entry, "en"@) {
        assert(!lower_eq(entry, "pt-br"@) && !lower_eq(entry, "pt"@)) by {
            if entry.len() > 0 {
                assert(crate::text::lower_code(entry[0]) == 'e' as u32);
            }
        }
        lemma_deciding_entry(entry, rest, I18n::english());
    }
    if lower_eq(entry, "pt-br"@) || lower_eq(entry, "pt"@) {
        lemma_deciding_entry(entry, rest, I18n::portuguese());
    }
}

/// A locale tag that begins with `pt` (in any letter case) asks for Brazilian
/// Portuguese and one that begins with `en` for American English, whatever
/// tags follow it; a tag that begins with neither is passed over.
pub proof fn law_locale_tag_prefix_decides(tag: Seq<char>, later: Seq<Seq<char>>)
    ensures
        lower_starts_with(tag, "pt"@) ==> locales_choice(seq![tag] + later)
            == I18n::portuguese(),
        lower_starts_with(tag, "en"@) ==> locales_choice(seq![tag] + later) == I18n::english(),
        !lower_starts_with(tag, "pt"@) && !lower_starts_with(tag, "en"@) ==> locales_choice(
            seq![tag] + later,
        ) == locales_choice(later),
{
    reveal_strlit("en");
    reveal_strlit("pt");
    let tags = seq![tag] + later;
    assert(tags[0] == tag);
    assert(tags.drop_first() =~= later);
    if lower_starts_with(tag, "en"@) && lower_starts_with(tag, "pt"@) {
        assert(crate::text::lower_code(tag[0]) == 'e' as u32);
        assert(crate::text::lower_code(tag[0]) == 'p' as u32);
    }
}

/// White space around the language of an `Accept-Language` entry does not
/// change what it asks for.
pub proof fn law_white_space_around_language_ignored(
    before_language: Seq<char>,
    language: Seq<char>,
    after_language: Seq<char>,
)
    requires
        forall|i: int|
            0 <= i < before_language.len() ==> crate::text::is_white_space(
                #[trigger] before_language[i],
            ),
        forall|i: int|
            0 <= i < after_language.len() ==> crate::text::is_white_space(
                #[trigger] after_language[i],
            ),
        !language.contains(';'),
        language.len() > 0,
        !crate::text::is_white_space(language[0]),
        !crate::text::is_white_space(language.last()),
    ensures
        entry_translation(before_language + language + after_language) == entry_translation(
            language,
        ),
{
    let entry = before_language + language + after_language;
    assert forall|j: int| 0 <= j < entry.len() implies entry[j] != ';' by {
        if j < before_language.len() {
            assert(entry[j] == before_language[j]);
        } else if j < before_language.len() + language.len() {
            assert(entry[j] == language[j - before_language.len()]);
            if entry[j] == ';' {
                assert(language.contains(';'));
            }
        } else {
            assert(entry[j] == after_language[j - before_language.len() - language.len()]);
        }
    }
    crate::text::lemma_first_index(entry, ';', entry.len() as int);
    assert(before(entry, ';') =~= entry);
    assert forall|j: int| 0 <= j < language.len() implies language[j] != ';' by {
        if language[j] == ';' {
            assert(language.contains(';'));
        }
    }
    crate::text::lemma_first_index(language, ';', language.len() as int);
    assert(before(language, ';') =~= language);
    lemma_trim_start_drops(before_language, language + after_language);
    assert(entry =~= before_language + (language + after_language));
    assert(crate::text::trim_start(language + after_language) == language + after_language) by {
        assert((language + after_language)[0] == language[0]);
    }
    lemma_trim_end_drops(language, after_language);
    assert(crate::text::trim_start(language) == language);
    assert(crate::text::trim_end(language) == language);
}

/// Leading white space is all that `trim_start` removes before `rest`.
proof fn lemma_trim_start_drops(space: Seq<char>, rest: Seq<char>)
    requires
        forall|i: int| 0 <= i < space.len() ==> crate::text::is_white_space(#[trigger] space[i]),
    ensures
        crate::text::trim_start(space + rest) == crate::text::trim_start(rest),
    decreases space.len(),
{
    if space.len() > 0 {
        assert((space + rest)[0] == space[0]);
        assert((space + rest).drop_first() =~= space.drop_first() + rest);
        assert forall|i: int| 0 <= i < space.drop_first().len() implies crate::text::is_white_space(
            #[trigger] space.drop_first()[i],
        ) by {
            assert(space.drop_first()[i] == space[i + 1]);
        }
        lemma_trim_start_drops(space.drop_first(), rest);
    } else {
        assert(space + rest =~= rest);
    }
}

/// Trailing white space is all that `trim_end` removes after `text`.
proof fn lemma_trim_end_drops(text: Seq<char>, space: Seq<char>)
    requires
        forall|i: int| 0 <= i < space.len() ==> crate::text::is_white_space(#[trigger] space[i]),
    ensures
        crate::text::trim_end(text + space) == crate::text::trim_end(text),
    decreases space.len(),
{
    if space.len() > 0 {
        assert((text + space).last() == space.last());
        assert((text + space).drop_last() =~= text + space.drop_last());
        assert forall|i: int| 0 <= i < space.drop_last().len() implies crate::text::is_white_space(
            #[trigger] space.drop_last()[i],
        ) by {
            assert(space.drop_last()[i] == space[i]);
        }
        lemma_trim_end_drops(text, space.drop_last());
    } else {
        assert(text + space =~= text);
    }
}

impl Default for I18n {
    /// American English.
    fn default() -> (r: I18n)
        ensures
            r == I18n::english(),
    {
        Self::en_us()
    }
}

} // verus!
