//! Reading the locale settings that a user asks for.
//!
//! The request is either one bare locale, which sets `LANG`, or a list of `KEY=locale`
//! assignments. Which keys exist is the admin protocol's affair: the caller hands in the
//! protocol's answers as a catalogue.

use vstd::prelude::*;
use crate::locale::{is_locale_value, lemma_locale_value_has_no_equals, locale_value};
use crate::text::{lemma_split_first, lemma_split_joined, quoted, quoted_text, split_first, split_once, texts};

verus! {

/// A key of a locale assignment.
#[derive(Clone, Copy, Debug, PartialEq, Eq, Structural)]
pub enum LocaleMacroKey {
    /// The default for every category.
    Lang,
    /// The override of every category.
    LcAll,
    /// A single category, by its number in the admin protocol.
    Other(i32),
}

/// The key that the admin protocol has under a name.
#[derive(Debug)]
pub struct LocaleKey {
    pub name: String,
    pub key: LocaleMacroKey,
}

/// One setting, as it is sent to the admin service.
#[derive(Debug)]
pub struct LocaleAssignment {
    pub key: LocaleMacroKey,
    pub value: String,
}

impl View for LocaleAssignment {
    type V = (LocaleMacroKey, Seq<char>);

    open spec fn view(&self) -> (LocaleMacroKey, Seq<char>) {
        (self.key, self.value@)
    }
}

/// Why a request is refused.
#[derive(Debug)]
pub enum LocaleError {
    /// There is nothing to set.
    NoAssignments,
    /// An argument has no equals sign.
    Format { assign: String },
    /// The admin protocol has no such key.
    UnknownKey { key: String },
    /// What stands behind the equals sign is no locale.
    Value { assign: String },
    /// Neither `LANG` nor `LC_ALL` is assigned.
    MissingLang,
}

/// A [`LocaleError`] over the characters of its texts.
pub enum LocaleFault {
    NoAssignments,
    Format(Seq<char>),
    UnknownKey(Seq<char>),
    Value(Seq<char>),
    MissingLang,
}

impl View for LocaleError {
    type V = LocaleFault;

    open spec fn view(&self) -> LocaleFault {
        match self {
            LocaleError::NoAssignments => LocaleFault::NoAssignments,
            LocaleError::Format { assign } => LocaleFault::Format(assign@),
            LocaleError::UnknownKey { key } => LocaleFault::UnknownKey(key@),
            LocaleError::Value { assign } => LocaleFault::Value(assign@),
            LocaleError::MissingLang => LocaleFault::MissingLang,
        }
    }
}

/// What the user is told of a refusal.
pub open spec fn fault_text(fault: LocaleFault) -> Seq<char> {
    match fault {
        LocaleFault::NoAssignments => "No locale assignments provided"@,
        LocaleFault::Format(assign) => quoted_text(
            "Invalid locale assignment format: '"@,
            assign,
            "'"@,
        ),
        LocaleFault::UnknownKey(key) => quoted_text("Unknown locale key: '"@, key, "'"@),
        LocaleFault::Value(assign) => quoted_text("Invalid locale value in '"@, assign, "'"@),
        LocaleFault::MissingLang => "At least one of LANG or LC_ALL assignment is required"@,
    }
}

impl LocaleError {
    /// What the user is told.
    pub fn message(&self) -> (text: String)
        ensures
            text@ == fault_text(self@),
    {
        match self {
            LocaleError::NoAssignments => "No locale assignments provided".to_owned(),
            LocaleError::Format { assign } => quoted(
                "Invalid locale assignment format: '",
                assign.as_str(),
                "'",
            ),
            LocaleError::UnknownKey { key } => quoted("Unknown locale key: '", key.as_str(), "'"),
            LocaleError::Value { assign } => quoted(
                "Invalid locale value in '",
                assign.as_str(),
                "'",
            ),
            LocaleError::MissingLang =>
                "At least one of LANG or LC_ALL assignment is required".to_owned(),
        }
    }
}

/// The key under `name`: that of the first entry with this name.
pub open spec fn key_named(catalogue: Seq<LocaleKey>, name: Seq<char>) -> Option<LocaleMacroKey>
    decreases catalogue.len(),
{
    if catalogue.len() == 0 {
        None
    } else if catalogue[0].name@ == name {
        Some(catalogue[0].key)
    } else {
        key_named(catalogue.skip(1), name)
    }
}

/// What the argument `text` assigns, or why it is refused.
pub open spec fn assignment(catalogue: Seq<LocaleKey>, text: Seq<char>) -> Result<
    (LocaleMacroKey, Seq<char>),
    LocaleFault,
> {
    match split_first(text, '=') {
        None => Err(LocaleFault::Format(text)),
        Some((name, value)) => match key_named(catalogue, name) {
            None => Err(LocaleFault::UnknownKey(name)),
            Some(key) => if locale_value(value) {
                Ok((key, value))
            } else {
                Err(LocaleFault::Value(text))
            },
        },
    }
}

/// Whether the reading ends at the argument `text`: it is refused, or it assigns `LC_ALL`.
pub open spec fn settles(catalogue: Seq<LocaleKey>, text: Seq<char>) -> bool {
    match assignment(catalogue, text) {
        Ok((key, _)) => key is LcAll,
        Err(_) => true,
    }
}

/// Whether the reading of `args` ends at position `i`.
pub open spec fn settled_at(catalogue: Seq<LocaleKey>, args: Seq<Seq<char>>, i: int) -> bool {
    &&& 0 <= i < args.len()
    &&& settles(catalogue, args[i])
    &&& forall|j: int| 0 <= j < i ==> !settles(catalogue, #[trigger] args[j])
}

/// Whether the argument `text` assigns `LANG`.
pub open spec fn sets_lang(catalogue: Seq<LocaleKey>, text: Seq<char>) -> bool {
    assignment(catalogue, text) matches Ok((LocaleMacroKey::Lang, _))
}

/// What a request asks for, or why it is refused.
pub open spec fn locales_requested(catalogue: Seq<LocaleKey>, args: Seq<Seq<char>>) -> Result<
    Seq<(LocaleMacroKey, Seq<char>)>,
    LocaleFault,
> {
    if args.len() == 0 {
        Err(LocaleFault::NoAssignments)
    } else if locale_value(args[0]) {
        Ok(seq![(LocaleMacroKey::Lang, args[0])])
    } else if exists|i: int| settled_at(catalogue, args, i) {
        let i = choose|i: int| settled_at(catalogue, args, i);
        match assignment(catalogue, args[i]) {
            Ok(a) => Ok(seq![a]),
            Err(fault) => Err(fault),
        }
    } else if exists|i: int| 0 <= i < args.len() && sets_lang(catalogue, #[trigger] args[i]) {
        Ok(Seq::new(args.len(), |i: int| assignment(catalogue, args[i])->Ok_0))
    } else {
        Err(LocaleFault::MissingLang)
    }
}

/// The settings over the characters of their values.
pub open spec fn settings(list: Seq<LocaleAssignment>) -> Seq<(LocaleMacroKey, Seq<char>)> {
    Seq::new(list.len(), |i: int| list[i]@)
}

impl LocaleMacroKey {
    /// The key that `catalogue` has under `name`.
    pub fn from_str_name(catalogue: &Vec<LocaleKey>, name: &str) -> (key: Option<LocaleMacroKey>)
        ensures
            key == key_named(catalogue@, name@),
    {
        let wanted: String = name.to_owned();
        let n: usize = catalogue.len();
        let mut i: usize = 0;
        assert(catalogue@.skip(0) =~= catalogue@);
        while i < n
            invariant
                i <= n,
                n == catalogue@.len(),
                wanted@ == name@,
                key_named(catalogue@, name@) == key_named(catalogue@.skip(i as int), name@),
            decreases n - i,
        {
            if catalogue[i].name == wanted {
                return Some(catalogue[i].key);
            }
            assert(catalogue@.skip(i as int).skip(1) =~= catalogue@.skip(i + 1));
            i += 1;
        }
        None
    }
}

/// The key of every argument that has one, in order: what the catalogue has to answer for.
pub open spec fn names_asked(args: Seq<Seq<char>>) -> Seq<Seq<char>>
    decreases args.len(),
{
    if args.len() == 0 {
        Seq::empty()
    } else {
        match split_first(args.last(), '=') {
            Some((name, _)) => names_asked(args.drop_last()).push(name),
            None => names_asked(args.drop_last()),
        }
    }
}

/// The key names that [`parse_locales`] will look up in its catalogue.
pub fn assigned_names(locale_assigns: &Vec<String>) -> (names: Vec<String>)
    ensures
        texts(names@) == names_asked(texts(locale_assigns@)),
{
    let n: usize = locale_assigns.len();
    let mut names: Vec<String> = Vec::new();
    let mut i: usize = 0;
    let ghost args = texts(locale_assigns@);
    assert(texts(names@) =~= names_asked(args.take(0)));
    while i < n
        invariant
            i <= n,
            n == locale_assigns@.len(),
            args == texts(locale_assigns@),
            texts(names@) == names_asked(args.take(i as int)),
        decreases n - i,
    {
        let ghost before = names@;
        assert(args.take(i + 1).drop_last() =~= args.take(i as int));
        assert(args.take(i + 1).last() == locale_assigns@[i as int]@);
        match split_once(locale_assigns[i].as_str(), '=') {
            Some((name, _)) => {
                names.push(name.to_owned());
                assert(texts(names@) =~= texts(before).push(name@));
            },
            None => {},
        }
        i += 1;
    }
    assert(args.take(n as int) =~= args);
    names
}

/// Reads a locale request.
///
/// A first argument that is a locale by itself sets `LANG` and is all that is read. Otherwise
/// each argument is a `KEY=locale` assignment. `LC_ALL` overrides every other setting: the first
/// one ends the reading and is returned alone. Without it `LANG` must be among the assignments.
pub fn parse_locales(locale_assigns: Vec<String>, catalogue: &Vec<LocaleKey>) -> (result: Result<
    Vec<LocaleAssignment>,
    LocaleError,
>)
    ensures
        match result {
            Ok(list) => locales_requested(catalogue@, texts(locale_assigns@)) == Ok::<
                _,
                LocaleFault,
            >(settings(list@)),
            Err(error) => locales_requested(catalogue@, texts(locale_assigns@)) == Err::<
                Seq<(LocaleMacroKey, Seq<char>)>,
                _,
            >(error@),
        },
{
    let n: usize = locale_assigns.len();
    let ghost args = texts(locale_assigns@);
    if n == 0 {
        return Err(LocaleError::NoAssignments);
    }
    assert(args[0] == locale_assigns@[0]@);
    if is_locale_value(locale_assigns[0].as_str()) {
        let mut list: Vec<LocaleAssignment> = Vec::new();
        list.push(LocaleAssignment { key: LocaleMacroKey::Lang, value: locale_assigns[0].clone() });
        assert(settings(list@) =~= seq![(LocaleMacroKey::Lang, args[0])]);
        return Ok(list);
    }
    let mut list: Vec<LocaleAssignment> = Vec::new();
    let mut has_lang: bool = false;
    let mut i: usize = 0;
    while i < n
        invariant
            i <= n,
            n == locale_assigns@.len(),
            n > 0,
            args == texts(locale_assigns@),
            !locale_value(args[0]),
            list@.len() == i,
            forall|j: int| 0 <= j < i ==> !settles(catalogue@, #[trigger] args[j]),
            forall|j: int|
                0 <= j < i ==> assignment(catalogue@, #[trigger] args[j]) == Ok::<_, LocaleFault>(
                    list@[j]@,
                ),
            has_lang <==> exists|j: int| 0 <= j < i && sets_lang(catalogue@, #[trigger] args[j]),
        decreases n - i,
    {
        let assign: &String = &locale_assigns[i];
        assert(args[i as int] == assign@);
        proof {
            if settles(catalogue@, args[i as int]) {
                lemma_settled(catalogue@, args, i as int);
            }
        }
        let (name, value) = match split_once(assign.as_str(), '=') {
            Some(parts) => parts,
            None => {
                return Err(LocaleError::Format { assign: assign.clone() });
            },
        };
        let key: LocaleMacroKey = match LocaleMacroKey::from_str_name(catalogue, name) {
            Some(key) => key,
            None => {
                return Err(LocaleError::UnknownKey { key: name.to_owned() });
            },
        };
        if !is_locale_value(value) {
            return Err(LocaleError::Value { assign: assign.clone() });
        }
        if key == LocaleMacroKey::LcAll {
            let mut only: Vec<LocaleAssignment> = Vec::new();
            only.push(LocaleAssignment { key: LocaleMacroKey::LcAll, value: value.to_owned() });
            assert(settings(only@) =~= seq![assignment(catalogue@, args[i as int])->Ok_0]);
            return Ok(only);
        }
        if key == LocaleMacroKey::Lang {
            has_lang = true;
        }
        list.push(LocaleAssignment { key, value: value.to_owned() });
        i += 1;
    }
    assert(forall|j: int| !settled_at(catalogue@, args, j));
    if !has_lang {
        return Err(LocaleError::MissingLang);
    }
    assert(settings(list@) =~= Seq::new(
        args.len(),
        |j: int| assignment(catalogue@, args[j])->Ok_0,
    ));
    Ok(list)
}

/// A reading that ends at `i` gives what the argument there says.
proof fn lemma_settled(catalogue: Seq<LocaleKey>, args: Seq<Seq<char>>, i: int)
    requires
        settled_at(catalogue, args, i),
        !locale_value(args[0]),
    ensures
        locales_requested(catalogue, args) == (match assignment(catalogue, args[i]) {
            Ok(a) => Ok(seq![a]),
            Err(fault) => Err(fault),
        }),
{
    let k = choose|k: int| settled_at(catalogue, args, k);
    assert(settled_at(catalogue, args, k));
    if k < i {
        assert(!settles(catalogue, args[k]));
    }
    if i < k {
        assert(!settles(catalogue, args[i]));
    }
}

/// An argument that is read as an assignment is no bare locale.
proof fn lemma_assignment_is_no_locale(catalogue: Seq<LocaleKey>, text: Seq<char>)
    requires
        assignment(catalogue, text) is Ok,
    ensures
        !locale_value(text),
{
    lemma_split_first(text, '=');
    if locale_value(text) {
        lemma_locale_value_has_no_equals(text);
    }
}

/// A locale given by itself sets `LANG`, whatever follows it.
pub proof fn law_bare_locale_sets_lang(
    catalogue: Seq<LocaleKey>,
    locale: Seq<char>,
    rest: Seq<Seq<char>>,
)
    requires
        locale_value(locale),
    ensures
        locales_requested(catalogue, seq![locale] + rest) == Ok::<_, LocaleFault>(
            seq![(LocaleMacroKey::Lang, locale)],
        ),
{
    assert((seq![locale] + rest)[0] == locale);
}

/// `LC_ALL` overrides every other setting: once it is read, neither the assignments before it
/// nor anything behind it has a say.
pub proof fn law_lc_all_overrides(
    catalogue: Seq<LocaleKey>,
    before: Seq<Seq<char>>,
    text: Seq<char>,
    value: Seq<char>,
    after: Seq<Seq<char>>,
)
    requires
        forall|j: int| 0 <= j < before.len() ==> !settles(catalogue, #[trigger] before[j]),
        assignment(catalogue, text) == Ok::<_, LocaleFault>((LocaleMacroKey::LcAll, value)),
    ensures
        locales_requested(catalogue, before + seq![text] + after) == Ok::<_, LocaleFault>(
            seq![(LocaleMacroKey::LcAll, value)],
        ),
{
    let args = before + seq![text] + after;
    let i = before.len() as int;
    assert(args[i] == text);
    assert forall|j: int| 0 <= j < i implies !settles(catalogue, #[trigger] args[j]) by {
        assert(args[j] == before[j]);
    }
    assert(settled_at(catalogue, args, i));
    if i == 0 {
        lemma_assignment_is_no_locale(catalogue, text);
    } else {
        assert(args[0] == before[0]);
        lemma_assignment_is_no_locale(catalogue, before[0]);
    }
    lemma_settled(catalogue, args, i);
}

/// The first refused argument decides the request, unless a bare locale or `LC_ALL` came first.
pub proof fn law_first_refusal_decides(
    catalogue: Seq<LocaleKey>,
    before: Seq<Seq<char>>,
    text: Seq<char>,
    fault: LocaleFault,
    after: Seq<Seq<char>>,
)
    requires
        forall|j: int| 0 <= j < before.len() ==> !settles(catalogue, #[trigger] before[j]),
        assignment(catalogue, text) == Err::<(LocaleMacroKey, Seq<char>), _>(fault),
        before.len() == 0 ==> !locale_value(text),
    ensures
        locales_requested(catalogue, before + seq![text] + after) == Err::<
            Seq<(LocaleMacroKey, Seq<char>)>,
            _,
        >(fault),
{
    let args = before + seq![text] + after;
    let i = before.len() as int;
    assert(args[i] == text);
    assert forall|j: int| 0 <= j < i implies !settles(catalogue, #[trigger] args[j]) by {
        assert(args[j] == before[j]);
    }
    assert(settled_at(catalogue, args, i));
    if i > 0 {
        assert(args[0] == before[0]);
        lemma_assignment_is_no_locale(catalogue, before[0]);
    }
    lemma_settled(catalogue, args, i);
}

/// Every accepted request sets `LANG` or `LC_ALL`, sets nothing but locales, and holds nothing
/// else where it holds `LC_ALL`.
pub proof fn law_accepted_settings(catalogue: Seq<LocaleKey>, args: Seq<Seq<char>>)
    ensures
        locales_requested(catalogue, args) matches Ok(list) ==> {
            &&& exists|i: int|
                0 <= i < list.len() && ((#[trigger] list[i]).0 is Lang || list[i].0 is LcAll)
            &&& forall|i: int| 0 <= i < list.len() ==> locale_value((#[trigger] list[i]).1)
            &&& forall|i: int|
                0 <= i < list.len() && (#[trigger] list[i]).0 is LcAll ==> list.len() == 1
        },
{
    if let Ok(list) = locales_requested(catalogue, args) {
        if locale_value(args[0]) {
            assert(list[0].0 is Lang);
        } else if exists|i: int| settled_at(catalogue, args, i) {
            let i = choose|i: int| settled_at(catalogue, args, i);
            assert(list[0] == assignment(catalogue, args[i])->Ok_0);
        } else {
            assert forall|i: int| 0 <= i < args.len() implies !settles(
                catalogue,
                #[trigger] args[i],
            ) by {
                lemma_first_settled(catalogue, args, i);
            }
            let i = choose|i: int|
                0 <= i < args.len() && sets_lang(catalogue, #[trigger] args[i]);
            assert(list[i].0 is Lang);
            assert forall|j: int| 0 <= j < list.len() implies locale_value(
                (#[trigger] list[j]).1,
            ) && !(list[j].0 is LcAll) by {
                assert(!settles(catalogue, args[j]));
            }
        }
    }
}

/// Where some argument up to `i` ends the reading, there is a first one that does.
proof fn lemma_first_settled(catalogue: Seq<LocaleKey>, args: Seq<Seq<char>>, i: int)
    requires
        0 <= i < args.len(),
    ensures
        settles(catalogue, args[i]) ==> exists|k: int| settled_at(catalogue, args, k),
    decreases i,
{
    if settles(catalogue, args[i]) {
        if exists|j: int| 0 <= j < i && settles(catalogue, #[trigger] args[j]) {
            let j = choose|j: int| 0 <= j < i && settles(catalogue, #[trigger] args[j]);
            lemma_first_settled(catalogue, args, j);
        } else {
            assert(settled_at(catalogue, args, i));
        }
    }
}

/// An accepted request without a bare locale and without `LC_ALL` keeps every assignment in its
/// place: the argument is the key's name, an equals sign and the value.
pub proof fn law_assignments_are_kept(catalogue: Seq<LocaleKey>, args: Seq<Seq<char>>)
    requires
        args.len() > 0,
        !locale_value(args[0]),
    ensures
        locales_requested(catalogue, args) matches Ok(list) ==> (forall|i: int|
            0 <= i < list.len() ==> !((#[trigger] list[i]).0 is LcAll)) ==> {
            &&& list.len() == args.len()
            &&& forall|i: int|
                0 <= i < list.len() ==> exists|name: Seq<char>|
                    args[i] == name + seq!['='] + (#[trigger] list[i]).1 && #[trigger] key_named(
                        catalogue,
                        name,
                    ) == Some(list[i].0)
        },
{
    if let Ok(list) = locales_requested(catalogue, args) {
        if exists|i: int| settled_at(catalogue, args, i) {
            let i = choose|i: int| settled_at(catalogue, args, i);
            assert(list[0] == assignment(catalogue, args[i])->Ok_0);
        } else {
            assert forall|i: int| 0 <= i < list.len() implies exists|name: Seq<char>|
                args[i] == name + seq!['='] + (#[trigger] list[i]).1 && #[trigger] key_named(
                    catalogue,
                    name,
                ) == Some(list[i].0) by {
                lemma_first_settled(catalogue, args, i);
                lemma_split_first(args[i], '=');
                let (name, value) = split_first(args[i], '=').unwrap();
                assert(key_named(catalogue, name) == Some(list[i].0));
            }
        }
    }
}

/// A known key's name, an equals sign and a locale are read back as this key and this locale.
pub proof fn law_written_assignment_is_read_back(
    catalogue: Seq<LocaleKey>,
    name: Seq<char>,
    key: LocaleMacroKey,
    value: Seq<char>,
)
    requires
        !name.contains('='),
        key_named(catalogue, name) == Some(key),
        locale_value(value),
    ensures
        assignment(catalogue, name + seq!['='] + value) == Ok::<_, LocaleFault>((key, value)),
{
    lemma_split_joined(name, '=', value);
}

/// The settings as assignments: `names[i]`, an equals sign and the value of `list[i]`.
pub open spec fn written(
    names: Seq<Seq<char>>,
    list: Seq<(LocaleMacroKey, Seq<char>)>,
) -> Seq<Seq<char>> {
    Seq::new(list.len(), |i: int| names[i] + seq!['='] + list[i].1)
}

/// The settings of an accepted request, written as assignments under names of their keys, are
/// read back as the same settings.
pub proof fn law_accepted_settings_are_read_back(
    catalogue: Seq<LocaleKey>,
    args: Seq<Seq<char>>,
    list: Seq<(LocaleMacroKey, Seq<char>)>,
    names: Seq<Seq<char>>,
)
    requires
        locales_requested(catalogue, args) == Ok::<_, LocaleFault>(list),
        names.len() == list.len(),
        forall|i: int|
            0 <= i < names.len() ==> !(#[trigger] names[i]).contains('=') && key_named(
                catalogue,
                names[i],
            ) == Some(list[i].0),
    ensures
        locales_requested(catalogue, written(names, list)) == Ok::<_, LocaleFault>(list),
{
    let again = written(names, list);
    law_accepted_settings(catalogue, args);
    assert forall|i: int| 0 <= i < list.len() implies assignment(catalogue, #[trigger] again[i])
        == Ok::<_, LocaleFault>(list[i]) by {
        assert(!names[i].contains('='));
        law_written_assignment_is_read_back(catalogue, names[i], list[i].0, list[i].1);
    }
    let k = choose|i: int|
        0 <= i < list.len() && ((#[trigger] list[i]).0 is Lang || list[i].0 is LcAll);
    assert(assignment(catalogue, again[k]) == Ok::<_, LocaleFault>(list[k]));
    assert(assignment(catalogue, again[0]) == Ok::<_, LocaleFault>(list[0]));
    lemma_assignment_is_no_locale(catalogue, again[0]);
    if list[k].0 is LcAll {
        assert(settled_at(catalogue, again, 0));
        lemma_settled(catalogue, again, 0);
        assert(list =~= seq![list[0]]);
    } else {
        assert forall|i: int| !settled_at(catalogue, again, i) by {
            if settled_at(catalogue, again, i) {
                assert(assignment(catalogue, again[i]) == Ok::<_, LocaleFault>(list[i]));
            }
        }
        assert(sets_lang(catalogue, again[k]));
        assert(Seq::new(again.len(), |i: int| assignment(catalogue, again[i])->Ok_0) =~= list);
    }
}

/// Every key before an equals sign is among the names asked for.
proof fn lemma_names_asked(args: Seq<Seq<char>>, i: int)
    requires
        0 <= i < args.len(),
    ensures
        split_first(args[i], '=') matches Some((name, _)) ==> names_asked(args).contains(name),
    decreases args.len(),
{
    if let Some((name, _)) = split_first(args[i], '=') {
        let inner = names_asked(args.drop_last());
        if i == args.len() - 1 {
            assert(names_asked(args)[inner.len() as int] == name);
        } else {
            lemma_names_asked(args.drop_last(), i);
            let k = choose|k: int| 0 <= k < inner.len() && inner[k] == name;
            assert(names_asked(args)[k] == name);
        }
    }
}

/// Only the answers for the names that [`assigned_names`] lists matter: two catalogues that agree
/// on these read the request alike.
pub proof fn law_only_assigned_names_matter(
    one: Seq<LocaleKey>,
    other: Seq<LocaleKey>,
    args: Seq<Seq<char>>,
)
    requires
        forall|k: int|
            0 <= k < names_asked(args).len() ==> key_named(one, #[trigger] names_asked(args)[k])
                == key_named(other, names_asked(args)[k]),
    ensures
        locales_requested(one, args) == locales_requested(other, args),
{
    assert forall|i: int| 0 <= i < args.len() implies assignment(one, #[trigger] args[i])
        == assignment(other, args[i]) by {
        lemma_names_asked(args, i);
    }
    if args.len() > 0 && !locale_value(args[0]) {
        if exists|i: int| settled_at(one, args, i) {
            let i = choose|i: int| settled_at(one, args, i);
            assert(settled_at(other, args, i));
            lemma_settled(one, args, i);
            lemma_settled(other, args, i);
        } else {
            assert forall|i: int| !settled_at(other, args, i) by {
                if settled_at(other, args, i) {
                    assert(settled_at(one, args, i));
                }
            }
            assert(Seq::new(args.len(), |i: int| assignment(one, args[i])->Ok_0) =~= Seq::new(
                args.len(),
                |i: int| assignment(other, args[i])->Ok_0,
            ));
            assert forall|i: int| 0 <= i < args.len() implies sets_lang(one, #[trigger] args[i])
                == sets_lang(other, args[i]) by {
                assert(assignment(one, args[i]) == assignment(other, args[i]));
            }
        }
    }
}

/// A name is looked up as the key of its first entry, and not found exactly where no entry has
/// it.
pub proof fn law_first_entry_names_the_key(catalogue: Seq<LocaleKey>, name: Seq<char>)
    ensures
        key_named(catalogue, name) is None <==> forall|i: int|
            0 <= i < catalogue.len() ==> (#[trigger] catalogue[i]).name@ != name,
        forall|i: int|
            0 <= i < catalogue.len() && (#[trigger] catalogue[i]).name@ == name && (forall|j: int|
                0 <= j < i ==> (#[trigger] catalogue[j]).name@ != name) ==> key_named(
                catalogue,
                name,
            ) == Some(catalogue[i].key),
    decreases catalogue.len(),
{
    if catalogue.len() > 0 {
        let rest = catalogue.skip(1);
        law_first_entry_names_the_key(rest, name);
        if catalogue[0].name@ != name {
            if key_named(catalogue, name) is None {
                assert forall|i: int| 0 <= i < catalogue.len() implies (
                #[trigger] catalogue[i]).name@ != name by {
                    if i > 0 {
                        assert(rest[i - 1] == catalogue[i]);
                    }
                }
            }
            if forall|i: int|
                0 <= i < catalogue.len() ==> (#[trigger] catalogue[i]).name@ != name {
                assert forall|i: int| 0 <= i < rest.len() implies (#[trigger] rest[i]).name@
                    != name by {
                    assert(rest[i] == catalogue[i + 1]);
                }
            }
            assert forall|i: int|
                0 <= i < catalogue.len() && (#[trigger] catalogue[i]).name@ == name && (forall|j: int|
                    0 <= j < i ==> (#[trigger] catalogue[j]).name@ != name) implies key_named(
                catalogue,
                name,
            ) == Some(catalogue[i].key) by {
                assert(rest[i - 1] == catalogue[i]);
                assert forall|j: int| 0 <= j < i - 1 implies (#[trigger] rest[j]).name@ != name by {
                    assert(rest[j] == catalogue[j + 1]);
                }
            }
        }
    }
}

/// Whether `text` is `name`, an equals sign and `value`, where `name` is known as `key` and
/// `value` is a locale.
pub open spec fn assigns(
    catalogue: Seq<LocaleKey>,
    text: Seq<char>,
    name: Seq<char>,
    key: LocaleMacroKey,
    value: Seq<char>,
) -> bool {
    &&& !name.contains('=')
    &&& text == name + seq!['='] + value
    &&& key_named(catalogue, name) == Some(key)
    &&& locale_value(value)
}

/// Whether each of `args` assigns the setting at its place in `list`, under the name at its place
/// in `names`, and none of the keys is `LC_ALL`.
pub open spec fn assigns_plainly(
    catalogue: Seq<LocaleKey>,
    args: Seq<Seq<char>>,
    names: Seq<Seq<char>>,
    list: Seq<(LocaleMacroKey, Seq<char>)>,
) -> bool {
    &&& names.len() == args.len()
    &&& list.len() == args.len()
    &&& forall|i: int|
        0 <= i < args.len() ==> assigns(
            catalogue,
            #[trigger] args[i],
            names[i],
            list[i].0,
            list[i].1,
        ) && list[i].0 != LocaleMacroKey::LcAll
}

proof fn lemma_assigns(
    catalogue: Seq<LocaleKey>,
    text: Seq<char>,
    name: Seq<char>,
    key: LocaleMacroKey,
    value: Seq<char>,
)
    requires
        assigns(catalogue, text, name, key, value),
    ensures
        assignment(catalogue, text) == Ok::<_, LocaleFault>((key, value)),
        !locale_value(text),
{
    lemma_split_joined(name, '=', value);
    lemma_assignment_is_no_locale(catalogue, text);
}

proof fn lemma_assigns_plainly(
    catalogue: Seq<LocaleKey>,
    args: Seq<Seq<char>>,
    names: Seq<Seq<char>>,
    list: Seq<(LocaleMacroKey, Seq<char>)>,
)
    requires
        assigns_plainly(catalogue, args, names, list),
    ensures
        forall|i: int|
            0 <= i < args.len() ==> assignment(catalogue, #[trigger] args[i]) == Ok::<
                _,
                LocaleFault,
            >(list[i]) && !settles(catalogue, args[i]) && !locale_value(args[i]),
{
    assert forall|i: int| 0 <= i < args.len() implies assignment(catalogue, #[trigger] args[i])
        == Ok::<_, LocaleFault>(list[i]) && !settles(catalogue, args[i]) && !locale_value(
        args[i],
    ) by {
        assert(assigns(catalogue, args[i], names[i], list[i].0, list[i].1));
        lemma_assigns(catalogue, args[i], names[i], list[i].0, list[i].1);
    }
}

/// A list of assignments with known keys and locales, none of them `LC_ALL`, is accepted where
/// `LANG` stands anywhere in it, and gives one setting per argument, in order.
pub proof fn law_assignments_with_lang_are_accepted(
    catalogue: Seq<LocaleKey>,
    args: Seq<Seq<char>>,
    names: Seq<Seq<char>>,
    list: Seq<(LocaleMacroKey, Seq<char>)>,
    at: int,
)
    requires
        assigns_plainly(catalogue, args, names, list),
        0 <= at < list.len(),
        list[at].0 == LocaleMacroKey::Lang,
    ensures
        locales_requested(catalogue, args) == Ok::<_, LocaleFault>(list),
{
    lemma_assigns_plainly(catalogue, args, names, list);
    assert(!locale_value(args[0]));
    assert(sets_lang(catalogue, args[at]));
    assert(Seq::new(args.len(), |i: int| assignment(catalogue, args[i])->Ok_0) =~= list);
}

/// Such a list is refused where it assigns neither `LANG` nor `LC_ALL`, and an empty one for
/// having nothing to set.
pub proof fn law_assignments_without_lang_are_refused(
    catalogue: Seq<LocaleKey>,
    args: Seq<Seq<char>>,
    names: Seq<Seq<char>>,
    list: Seq<(LocaleMacroKey, Seq<char>)>,
)
    requires
        assigns_plainly(catalogue, args, names, list),
        forall|i: int| 0 <= i < list.len() ==> (#[trigger] list[i]).0 != LocaleMacroKey::Lang,
    ensures
        locales_requested(catalogue, args) == Err::<Seq<(LocaleMacroKey, Seq<char>)>, _>(
            if args.len() == 0 {
                LocaleFault::NoAssignments
            } else {
                LocaleFault::MissingLang
            },
        ),
{
    lemma_assigns_plainly(catalogue, args, names, list);
    if args.len() > 0 {
        assert(!locale_value(args[0]));
        assert forall|i: int| 0 <= i < args.len() implies !sets_lang(
            catalogue,
            #[trigger] args[i],
        ) by {
            assert(list[i].0 != LocaleMacroKey::Lang);
        }
    }
}

/// The first `LC_ALL` behind well-formed assignments is the one setting of the request, whatever
/// they assign and whatever follows.
pub proof fn law_lc_all_is_the_only_setting(
    catalogue: Seq<LocaleKey>,
    before: Seq<Seq<char>>,
    names: Seq<Seq<char>>,
    list: Seq<(LocaleMacroKey, Seq<char>)>,
    name: Seq<char>,
    value: Seq<char>,
    after: Seq<Seq<char>>,
)
    requires
        assigns_plainly(catalogue, before, names, list),
        !name.contains('='),
        key_named(catalogue, name) == Some(LocaleMacroKey::LcAll),
        locale_value(value),
    ensures
        locales_requested(catalogue, before + seq![name + seq!['='] + value] + after) == Ok::<
            _,
            LocaleFault,
        >(seq![(LocaleMacroKey::LcAll, value)]),
{
    let text = name + seq!['='] + value;
    lemma_assigns_plainly(catalogue, before, names, list);
    lemma_assigns(catalogue, text, name, LocaleMacroKey::LcAll, value);
    law_lc_all_overrides(catalogue, before, text, value, after);
}

/// Behind well-formed assignments, an argument without an equals sign refuses the request, even
/// if it is a locale; only as the first argument a locale is accepted.
pub proof fn law_argument_without_equals_is_refused(
    catalogue: Seq<LocaleKey>,
    before: Seq<Seq<char>>,
    names: Seq<Seq<char>>,
    list: Seq<(LocaleMacroKey, Seq<char>)>,
    text: Seq<char>,
    after: Seq<Seq<char>>,
)
    requires
        assigns_plainly(catalogue, before, names, list),
        !text.contains('='),
        before.len() == 0 ==> !locale_value(text),
    ensures
        locales_requested(catalogue, before + seq![text] + after) == Err::<
            Seq<(LocaleMacroKey, Seq<char>)>,
            _,
        >(LocaleFault::Format(text)),
{
    lemma_assigns_plainly(catalogue, before, names, list);
    lemma_split_first(text, '=');
    law_first_refusal_decides(catalogue, before, text, LocaleFault::Format(text), after);
}

/// Behind well-formed assignments, an assignment refuses the request where its key is unknown,
/// and then for that whatever its value is; and otherwise where its value is no locale.
pub proof fn law_bad_assignment_is_refused(
    catalogue: Seq<LocaleKey>,
    before: Seq<Seq<char>>,
    names: Seq<Seq<char>>,
    list: Seq<(LocaleMacroKey, Seq<char>)>,
    name: Seq<char>,
    value: Seq<char>,
    after: Seq<Seq<char>>,
)
    requires
        assigns_plainly(catalogue, before, names, list),
        !name.contains('='),
        key_named(catalogue, name) is None || !locale_value(value),
    ensures
        locales_requested(catalogue, before + seq![name + seq!['='] + value] + after) == Err::<
            Seq<(LocaleMacroKey, Seq<char>)>,
            _,
        >(
            if key_named(catalogue, name) is None {
                LocaleFault::UnknownKey(name)
            } else {
                LocaleFault::Value(name + seq!['='] + value)
            },
        ),
{
    let text = name + seq!['='] + value;
    lemma_assigns_plainly(catalogue, before, names, list);
    lemma_split_joined(name, '=', value);
    assert(text[name.len() as int] == '=');
    if locale_value(text) {
        lemma_locale_value_has_no_equals(text);
    }
    law_first_refusal_decides(
        catalogue,
        before,
        text,
        if key_named(catalogue, name) is None {
            LocaleFault::UnknownKey(name)
        } else {
            LocaleFault::Value(text)
        },
        after,
    );
}

/// The names asked for are those of the arguments one by one: an argument gives what stands
/// before its first equals sign, and nothing where it has none.
pub proof fn law_names_are_asked_one_by_one(args: Seq<Seq<char>>, name: Seq<char>, rest: Seq<char>)
    requires
        !name.contains('='),
    ensures
        names_asked(Seq::empty()) == Seq::<Seq<char>>::empty(),
        names_asked(args.push(name + seq!['='] + rest)) == names_asked(args).push(name),
        names_asked(args.push(name)) == names_asked(args),
{
    lemma_split_joined(name, '=', rest);
    lemma_split_first(name, '=');
    assert(args.push(name + seq!['='] + rest).drop_last() =~= args);
    assert(args.push(name).drop_last() =~= args);
}

/// A setting is seen as its key and the characters of its value, in its place.
pub proof fn law_settings_keep_order(list: Seq<LocaleAssignment>)
    ensures
        settings(list).len() == list.len(),
        forall|i: int|
            0 <= i < list.len() ==> #[trigger] settings(list)[i] == (list[i].key, list[i].value@),
{
}

/// A refusal names what the user wrote: the whole argument without an equals sign, the unknown
/// key, or the whole assignment with the bad value, each in quotes.
pub proof fn law_refusals_quote_the_argument(text: Seq<char>)
    ensures
        fault_text(LocaleFault::Format(text)) == "Invalid locale assignment format: '"@ + text
            + "'"@,
        fault_text(LocaleFault::UnknownKey(text)) == "Unknown locale key: '"@ + text + "'"@,
        fault_text(LocaleFault::Value(text)) == "Invalid locale value in '"@ + text + "'"@,
        fault_text(LocaleFault::NoAssignments) == "No locale assignments provided"@,
        fault_text(LocaleFault::MissingLang)
            == "At least one of LANG or LC_ALL assignment is required"@,
{
}

/// An error is seen as the fault of the same name, with the characters of its text.
pub proof fn law_errors_are_seen_whole(error: LocaleError)
    ensures
        error is NoAssignments <==> error@ is NoAssignments,
        error is MissingLang <==> error@ is MissingLang,
        error matches LocaleError::Format { assign } ==> error@ == LocaleFault::Format(assign@),
        error matches LocaleError::UnknownKey { key } ==> error@ == LocaleFault::UnknownKey(key@),
        error matches LocaleError::Value { assign } ==> error@ == LocaleFault::Value(assign@),
{
}

} // verus!
