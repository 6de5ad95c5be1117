//! Skill injection and automatic rules: which guidance text is added to a
//! stage's context, taken from the skill and rule libraries by tags and by
//! the names of the target files, with fixed texts where a library has none.
use vstd::prelude::*;
use crate::stage::SkillSource;
use crate::text::{opt_view, copy_str, has_suffix, push_str, str_eq, strings_view};

verus! {

// ---------------------------------------------------------------------------
// Skills
// ---------------------------------------------------------------------------

/// The skill that Obsidian holds for execution.
pub open spec fn ponytail_skill() -> Seq<char> {
    "<<PONYTAIL SKILL INJECTED FROM OBSIDIAN>>"@
}

/// The skill that Notion holds for risk scans.
pub open spec fn caveman_skill() -> Seq<char> {
    "<<CAVEMAN SKILL INJECTED FROM NOTION>>"@
}

/// The skill that Notion holds for frontend work.
pub open spec fn liquid_glass_skill() -> Seq<char> {
    "<<LIQUID GLASS FRONTEND SKILL FROM NOTION>>"@
}

/// What is injected when no source has a skill for the tags.
pub open spec fn no_skill() -> Seq<char> {
    "<<NO SPECIFIC SKILL INJECTED>>"@
}

/// Obsidian answers the `execute` tag.
pub open spec fn obsidian_skill(tags: Seq<Seq<char>>) -> Option<Seq<char>> {
    if tags.contains("execute"@) {
        Some(ponytail_skill())
    } else {
        None
    }
}

/// Notion answers the `risk` tag and, failing that, the `frontend` tag.
pub open spec fn notion_skill(tags: Seq<Seq<char>>) -> Option<Seq<char>> {
    if tags.contains("risk"@) {
        Some(caveman_skill())
    } else if tags.contains("frontend"@) {
        Some(liquid_glass_skill())
    } else {
        None
    }
}

/// A found skill as a line of the hybrid listing.
pub open spec fn skill_line(s: Option<Seq<char>>) -> Seq<char> {
    match s {
        Some(t) => t + "\n"@,
        None => Seq::empty(),
    }
}

/// What the chosen source yields for the tags, before the empty case.
pub open spec fn collected_skills(source: SkillSource, tags: Seq<Seq<char>>) -> Seq<char> {
    match source {
        SkillSource::Obsidian => match obsidian_skill(tags) {
            Some(t) => t,
            None => Seq::empty(),
        },
        SkillSource::Notion => match notion_skill(tags) {
            Some(t) => t,
            None => Seq::empty(),
        },
        SkillSource::Hybrid => skill_line(obsidian_skill(tags)) + skill_line(notion_skill(tags)),
    }
}

/// The skill text injected for the tags.
pub open spec fn skill_text(source: SkillSource, tags: Seq<Seq<char>>) -> Seq<char> {
    let c = collected_skills(source, tags);
    if c.len() == 0 {
        no_skill()
    } else {
        c
    }
}

fn has_tag(tags: &Vec<String>, tag: &str) -> (r: bool)
    ensures
        r == strings_view(tags@).contains(tag@),
{
    let mut i: usize = 0;
    while i < tags.len()
        invariant
            i <= tags@.len(),
            forall|k: int| 0 <= k < i ==> tags@[k]@ != tag@,
        decreases tags.len() - i,
    {
        if str_eq(tags[i].as_str(), tag) {
            assert(strings_view(tags@)[i as int] == tag@);
            return true;
        }
        i = i + 1;
    }
    proof {
        if strings_view(tags@).contains(tag@) {
            let k = choose|k: int| 0 <= k < strings_view(tags@).len() && strings_view(tags@)[k] == tag@;
            assert(tags@[k]@ == tag@);
        }
    }
    false
}

fn scan_obsidian(tags: &Vec<String>) -> (r: Option<String>)
    ensures
        opt_view(r) == obsidian_skill(strings_view(tags@)),
{
    if has_tag(tags, "execute") {
        Some(copy_str("<<PONYTAIL SKILL INJECTED FROM OBSIDIAN>>"))
    } else {
        None
    }
}

fn scan_notion(tags: &Vec<String>) -> (r: Option<String>)
    ensures
        opt_view(r) == notion_skill(strings_view(tags@)),
{
    if has_tag(tags, "risk") {
        Some(copy_str("<<CAVEMAN SKILL INJECTED FROM NOTION>>"))
    } else if has_tag(tags, "frontend") {
        Some(copy_str("<<LIQUID GLASS FRONTEND SKILL FROM NOTION>>"))
    } else {
        None
    }
}

/// The fixed skill text that the source yields for the tags.
fn builtin_skill(source: SkillSource, tags: &Vec<String>) -> (r: String)
    ensures
        r@ == skill_text(source, strings_view(tags@)),
{
    let mut found = String::new();
    match source {
        SkillSource::Obsidian => {
            if let Some(s) = scan_obsidian(tags) {
                push_str(&mut found, s.as_str());
            }
        },
        SkillSource::Notion => {
            if let Some(s) = scan_notion(tags) {
                push_str(&mut found, s.as_str());
            }
        },
        SkillSource::Hybrid => {
            if let Some(s) = scan_obsidian(tags) {
                push_str(&mut found, s.as_str());
                push_str(&mut found, "\n");
            }
            if let Some(s) = scan_notion(tags) {
                push_str(&mut found, s.as_str());
                push_str(&mut found, "\n");
            }
        },
    }
    assert(found@ == collected_skills(source, strings_view(tags@)));
    if found.as_str().is_empty() {
        copy_str("<<NO SPECIFIC SKILL INJECTED>>")
    } else {
        found
    }
}

// ---------------------------------------------------------------------------
// Library documents
// ---------------------------------------------------------------------------

/// A Markdown document of the skill or rule library: its name (the file name
/// without `.md`) and its text.
#[derive(Debug)]
pub struct LibraryDoc {
    pub name: String,
    pub text: String,
}

/// The model of a [`LibraryDoc`].
pub struct DocView {
    pub name: Seq<char>,
    pub text: Seq<char>,
}

impl View for LibraryDoc {
    type V = DocView;

    open spec fn view(&self) -> DocView {
        DocView { name: self.name@, text: self.text@ }
    }
}

/// The views of a list of documents.
pub open spec fn docs_view(d: Seq<LibraryDoc>) -> Seq<DocView> {
    d.map_values(|x: LibraryDoc| x@)
}

/// The skill documents named by one of the tags, each text followed by a
/// line break, in the order of the library.
pub open spec fn tagged_skills(docs: Seq<DocView>, tags: Seq<Seq<char>>) -> Seq<char>
    decreases docs.len(),
{
    if docs.len() == 0 {
        Seq::empty()
    } else {
        tagged_skills(docs.drop_last(), tags) + (if tags.contains(docs.last().name) {
            docs.last().text + "\n"@
        } else {
            Seq::empty()
        })
    }
}

/// The skill text injected for the tags: the library's documents named by a
/// tag, or, where the library has none, the source's fixed skill.
pub open spec fn skill_text_from(source: SkillSource, docs: Seq<DocView>, tags: Seq<Seq<char>>) -> Seq<char> {
    let t = tagged_skills(docs, tags);
    if t.len() == 0 {
        skill_text(source, tags)
    } else {
        t
    }
}

proof fn lemma_tagged_skills_nonempty(docs: Seq<DocView>, tags: Seq<Seq<char>>, i: int)
    requires
        0 <= i < docs.len(),
        tags.contains(docs[i].name),
    ensures
        tagged_skills(docs, tags).len() >= docs[i].text.len() + 1,
    decreases docs.len(),
{
    reveal_strlit("\n");
    if i < docs.len() - 1 {
        assert(docs.drop_last()[i] == docs[i]);
        lemma_tagged_skills_nonempty(docs.drop_last(), tags, i);
    }
}

/// The library decides the skill: where a document of the library is named
/// by one of the tags, the injected text is made of the library's documents
/// named by the tags alone, whatever the source; only where none is named
/// does the source's fixed skill stand.
pub proof fn law_library_skills_win(source: SkillSource, docs: Seq<DocView>, tags: Seq<Seq<char>>)
    ensures
        (exists|i: int| 0 <= i < docs.len() && tags.contains(#[trigger] docs[i].name))
            ==> skill_text_from(source, docs, tags) == tagged_skills(docs, tags),
        (forall|i: int| 0 <= i < docs.len() ==> !tags.contains(#[trigger] docs[i].name))
            ==> skill_text_from(source, docs, tags) == skill_text(source, tags),
    decreases docs.len(),
{
    if exists|i: int| 0 <= i < docs.len() && tags.contains(#[trigger] docs[i].name) {
        let i = choose|i: int| 0 <= i < docs.len() && tags.contains(#[trigger] docs[i].name);
        lemma_tagged_skills_nonempty(docs, tags, i);
    }
    if forall|i: int| 0 <= i < docs.len() ==> !tags.contains(#[trigger] docs[i].name) {
        if docs.len() > 0 {
            assert forall|i: int| 0 <= i < docs.drop_last().len() implies !tags.contains(
                #[trigger] docs.drop_last()[i].name,
            ) by {
                assert(docs.drop_last()[i] == docs[i]);
            }
            law_library_skills_win(source, docs.drop_last(), tags);
            assert(!tags.contains(docs[docs.len() - 1].name));
        }
    }
}

/// The skill text injected for the tags, taken from the library documents
/// named by a tag; the source's fixed skill where none is.
pub fn fetch_skill(source: SkillSource, docs: &Vec<LibraryDoc>, tags: &Vec<String>) -> (r: String)
    ensures
        r@ == skill_text_from(source, docs_view(docs@), strings_view(tags@)),
{
    let ghost dv = docs_view(docs@);
    let ghost tv = strings_view(tags@);
    let mut found = String::new();
    let mut i: usize = 0;
    assert(dv.take(0) =~= Seq::<DocView>::empty());
    while i < docs.len()
        invariant
            i <= docs@.len(),
            dv == docs_view(docs@),
            tv == strings_view(tags@),
            found@ == tagged_skills(dv.take(i as int), tv),
        decreases docs.len() - i,
    {
        let d = &docs[i];
        proof {
            let t = dv.take(i + 1);
            assert(t.drop_last() =~= dv.take(i as int));
            assert(t.last() == d@);
        }
        if has_tag(tags, d.name.as_str()) {
            push_str(&mut found, d.text.as_str());
            push_str(&mut found, "\n");
        }
        i = i + 1;
    }
    assert(dv.take(docs@.len() as int) =~= dv);
    if found.as_str().is_empty() {
        builtin_skill(source, tags)
    } else {
        found
    }
}

// ---------------------------------------------------------------------------
// Automatic rules
// ---------------------------------------------------------------------------

/// A convention that a target file's name triggers.
#[derive(Debug, PartialEq, Eq, Clone, Copy, Structural)]
pub enum RuleHit {
    /// A `.svelte` file: the Svelte state-management pattern.
    Svelte,
    /// A `.rs` or `.ts` file: the core security policies.
    Security,
}

/// The rules that one file name triggers, in order.
pub open spec fn file_rule_hits(f: Seq<char>) -> Seq<RuleHit> {
    (if has_suffix(f, ".svelte"@) {
        seq![RuleHit::Svelte]
    } else {
        Seq::empty()
    }) + (if has_suffix(f, ".rs"@) || has_suffix(f, ".ts"@) {
        seq![RuleHit::Security]
    } else {
        Seq::empty()
    })
}

/// The text injected for one fixed rule.
pub open spec fn rule_text(h: RuleHit) -> Seq<char> {
    match h {
        RuleHit::Svelte => "<< AUTO-RULE: SVELTE STATE MANAGEMENT PATTERN >>\n"@,
        RuleHit::Security => "<< AUTO-RULE: CORE SECURITY POLICIES (No SQLi, No Plaintext passwords) >>\n"@,
    }
}

/// A rule document applies to the files whose name ends in a dot and the
/// document's name: `svelte.md` to `*.svelte`, `rs.md` to `*.rs`.
pub open spec fn rule_doc_applies(d: DocView, file: Seq<char>) -> bool {
    has_suffix(file, "."@ + d.name)
}

/// The rule documents that apply to a file, in the order of the library.
pub open spec fn file_rule_docs(docs: Seq<DocView>, file: Seq<char>) -> Seq<DocView>
    decreases docs.len(),
{
    if docs.len() == 0 {
        Seq::empty()
    } else {
        file_rule_docs(docs.drop_last(), file) + (if rule_doc_applies(docs.last(), file) {
            seq![docs.last()]
        } else {
            Seq::empty()
        })
    }
}

/// A rule that is applied to a target file: a fixed one, or a document of
/// the rule library (its name and its text).
#[derive(Debug, PartialEq)]
pub enum RuleUseOf<S> {
    Builtin(RuleHit),
    Document(S, S),
}

pub type RuleUse = RuleUseOf<String>;

pub type RuleUseView = RuleUseOf<Seq<char>>;

impl View for RuleUseOf<String> {
    type V = RuleUseView;

    open spec fn view(&self) -> RuleUseView {
        match self {
            RuleUseOf::Builtin(h) => RuleUseOf::Builtin(*h),
            RuleUseOf::Document(n, t) => RuleUseOf::Document(n@, t@),
        }
    }
}

/// The views of a list of applied rules.
pub open spec fn uses_view(u: Seq<RuleUse>) -> Seq<RuleUseView> {
    u.map_values(|x: RuleUse| x@)
}

/// A rule document as an applied rule.
pub open spec fn doc_use(d: DocView) -> RuleUseView {
    RuleUseOf::Document(d.name, d.text)
}

/// A fixed rule as an applied rule.
pub open spec fn builtin_use(h: RuleHit) -> RuleUseView {
    RuleUseOf::Builtin(h)
}

/// The rules applied to one file: the library's documents that apply to it,
/// or, where none does, the fixed rules that its name triggers.
pub open spec fn file_rule_uses(docs: Seq<DocView>, file: Seq<char>) -> Seq<RuleUseView> {
    let d = file_rule_docs(docs, file);
    if d.len() > 0 {
        d.map_values(|x: DocView| doc_use(x))
    } else {
        file_rule_hits(file).map_values(|h: RuleHit| builtin_use(h))
    }
}

/// The rules applied to the files, file by file.
pub open spec fn rule_uses(docs: Seq<DocView>, files: Seq<Seq<char>>) -> Seq<RuleUseView>
    decreases files.len(),
{
    if files.len() == 0 {
        Seq::empty()
    } else {
        rule_uses(docs, files.drop_last()) + file_rule_uses(docs, files.last())
    }
}

/// The text injected for one applied rule.
pub open spec fn use_text(u: RuleUseView) -> Seq<char> {
    match u {
        RuleUseOf::Builtin(h) => rule_text(h),
        RuleUseOf::Document(_, t) => t + "\n"@,
    }
}

/// The texts of the applied rules, in order.
pub open spec fn uses_text(uses: Seq<RuleUseView>) -> Seq<char>
    decreases uses.len(),
{
    if uses.len() == 0 {
        Seq::empty()
    } else {
        uses_text(uses.drop_last()) + use_text(uses.last())
    }
}

proof fn lemma_rule_uses_append(docs: Seq<DocView>, a: Seq<Seq<char>>, b: Seq<Seq<char>>)
    ensures
        rule_uses(docs, a + b) == rule_uses(docs, a) + rule_uses(docs, b),
    decreases b.len(),
{
    if b.len() == 0 {
        assert(a + b =~= a);
        assert(rule_uses(docs, a) + rule_uses(docs, b) =~= rule_uses(docs, a));
    } else {
        assert((a + b).drop_last() =~= a + b.drop_last());
        assert((a + b).last() == b.last());
        lemma_rule_uses_append(docs, a, b.drop_last());
        assert(rule_uses(docs, a) + rule_uses(docs, b) =~= rule_uses(docs, a) + rule_uses(
            docs,
            b.drop_last(),
        ) + file_rule_uses(docs, b.last()));
    }
}

proof fn lemma_uses_text_append(x: Seq<RuleUseView>, y: Seq<RuleUseView>)
    ensures
        uses_text(x + y) == uses_text(x) + uses_text(y),
    decreases y.len(),
{
    if y.len() == 0 {
        assert(x + y =~= x);
        assert(uses_text(x) + uses_text(y) =~= uses_text(x));
    } else {
        assert((x + y).drop_last() =~= x + y.drop_last());
        assert((x + y).last() == y.last());
        lemma_uses_text_append(x, y.drop_last());
        assert(uses_text(x) + uses_text(y) =~= uses_text(x) + uses_text(y.drop_last()) + use_text(
            y.last(),
        ));
    }
}

/// The rules are applied file by file: the rules of two lists of files one
/// after the other are those of each list, and so is their text; no file
/// gives no rule; and one file, where the library has no rule document,
/// gets the Svelte rule when its name ends in `.svelte`, then the security
/// rule when it ends in `.rs` or `.ts`.
pub proof fn law_rules_file_by_file(
    docs: Seq<DocView>,
    a: Seq<Seq<char>>,
    b: Seq<Seq<char>>,
    f: Seq<char>,
)
    ensures
        rule_uses(docs, a + b) == rule_uses(docs, a) + rule_uses(docs, b),
        uses_text(rule_uses(docs, a + b)) == uses_text(rule_uses(docs, a)) + uses_text(
            rule_uses(docs, b),
        ),
        rule_uses(docs, Seq::empty()) == Seq::<RuleUseView>::empty(),
        uses_text(rule_uses(Seq::empty(), seq![f])) == (if has_suffix(f, ".svelte"@) {
            rule_text(RuleHit::Svelte)
        } else {
            Seq::empty()
        }) + (if has_suffix(f, ".rs"@) || has_suffix(f, ".ts"@) {
            rule_text(RuleHit::Security)
        } else {
            Seq::empty()
        }),
{
    lemma_rule_uses_append(docs, a, b);
    lemma_uses_text_append(rule_uses(docs, a), rule_uses(docs, b));
    let one = seq![f];
    assert(one.drop_last() =~= Seq::<Seq<char>>::empty());
    assert(one.last() == f);
    assert(file_rule_docs(Seq::empty(), f) =~= Seq::<DocView>::empty());
    let u = file_rule_uses(Seq::empty(), f);
    assert(rule_uses(Seq::<DocView>::empty(), Seq::<Seq<char>>::empty()) =~= Seq::<RuleUseView>::empty());
    assert(rule_uses(Seq::empty(), one) =~= Seq::<RuleUseView>::empty() + u);
    assert(Seq::<RuleUseView>::empty() + u =~= u);
    let sv = has_suffix(f, ".svelte"@);
    let sec = has_suffix(f, ".rs"@) || has_suffix(f, ".ts"@);
    let e = Seq::<char>::empty();
    if sv && sec {
        assert(u =~= seq![builtin_use(RuleHit::Svelte), builtin_use(RuleHit::Security)]);
        assert(u.drop_last() =~= seq![builtin_use(RuleHit::Svelte)]);
        assert(u.drop_last().drop_last() =~= Seq::<RuleUseView>::empty());
        assert(uses_text(Seq::<RuleUseView>::empty()) == e);
        assert(u.drop_last().last() == builtin_use(RuleHit::Svelte));
        assert(u.last() == builtin_use(RuleHit::Security));
        assert(uses_text(u.drop_last()) =~= e + rule_text(RuleHit::Svelte));
        assert(e + rule_text(RuleHit::Svelte) =~= rule_text(RuleHit::Svelte));
    } else if sv {
        assert(u =~= seq![builtin_use(RuleHit::Svelte)]);
        assert(u.drop_last() =~= Seq::<RuleUseView>::empty());
        assert(uses_text(Seq::<RuleUseView>::empty()) == e);
        assert(u.last() == builtin_use(RuleHit::Svelte));
        assert(uses_text(u) =~= e + rule_text(RuleHit::Svelte));
        assert(rule_text(RuleHit::Svelte) + e =~= rule_text(RuleHit::Svelte));
        assert(e + rule_text(RuleHit::Svelte) =~= rule_text(RuleHit::Svelte));
    } else if sec {
        assert(u =~= seq![builtin_use(RuleHit::Security)]);
        assert(u.drop_last() =~= Seq::<RuleUseView>::empty());
        assert(uses_text(Seq::<RuleUseView>::empty()) == e);
        assert(u.last() == builtin_use(RuleHit::Security));
        assert(uses_text(u) =~= e + rule_text(RuleHit::Security));
        assert(e + rule_text(RuleHit::Security) =~= rule_text(RuleHit::Security));
    } else {
        assert(u =~= Seq::<RuleUseView>::empty());
        assert(e + e =~= e);
    }
}

fn push_use(all: &mut Vec<RuleUse>, u: RuleUse)
    ensures
        uses_view(final(all)@) == uses_view(old(all)@).push(u@),
{
    let ghost before = uses_view(all@);
    all.push(u);
    assert(uses_view(all@) =~= before.push(u@));
}

fn rule_doc_applies_to(d: &LibraryDoc, file: &str) -> (r: bool)
    ensures
        r == rule_doc_applies(d@, file@),
{
    let mut dotted = copy_str(".");
    push_str(&mut dotted, d.name.as_str());
    crate::text::ends_with(file, dotted.as_str())
}

fn file_uses(docs: &Vec<LibraryDoc>, file: &str) -> (r: Vec<RuleUse>)
    ensures
        uses_view(r@) == file_rule_uses(docs_view(docs@), file@),
{
    let ghost dv = docs_view(docs@);
    let mut found: Vec<RuleUse> = Vec::new();
    let mut j: usize = 0;
    assert(dv.take(0) =~= Seq::<DocView>::empty());
    assert(uses_view(found@) =~= file_rule_docs(dv.take(0), file@).map_values(|x: DocView| doc_use(x)));
    while j < docs.len()
        invariant
            j <= docs@.len(),
            dv == docs_view(docs@),
            uses_view(found@) == file_rule_docs(dv.take(j as int), file@).map_values(|x: DocView| doc_use(x)),
        decreases docs.len() - j,
    {
        let d = &docs[j];
        let ghost prev = file_rule_docs(dv.take(j as int), file@);
        proof {
            let t = dv.take(j + 1);
            assert(t.drop_last() =~= dv.take(j as int));
            assert(t.last() == d@);
        }
        if rule_doc_applies_to(d, file) {
            push_use(&mut found, RuleUseOf::Document(d.name.clone(), d.text.clone()));
            assert(prev.push(d@).map_values(|x: DocView| doc_use(x))
                =~= prev.map_values(|x: DocView| doc_use(x)).push(doc_use(d@)));
            assert(file_rule_docs(dv.take(j + 1), file@) =~= prev.push(d@));
        } else {
            assert(file_rule_docs(dv.take(j + 1), file@) =~= prev);
        }
        j = j + 1;
    }
    assert(dv.take(docs@.len() as int) =~= dv);
    if found.len() > 0 {
        return found;
    }
    let mut hits: Vec<RuleUse> = Vec::new();
    if crate::text::ends_with(file, ".svelte") {
        push_use(&mut hits, RuleUseOf::Builtin(RuleHit::Svelte));
    }
    if crate::text::ends_with(file, ".rs") || crate::text::ends_with(file, ".ts") {
        push_use(&mut hits, RuleUseOf::Builtin(RuleHit::Security));
    }
    assert(uses_view(hits@) =~= file_rule_hits(file@).map_values(|h: RuleHit| builtin_use(h)));
    hits
}

fn push_use_text(text: &mut String, u: &RuleUse)
    ensures
        final(text)@ == old(text)@ + use_text(u@),
{
    match u {
        RuleUseOf::Builtin(RuleHit::Svelte) => push_str(text, "<< AUTO-RULE: SVELTE STATE MANAGEMENT PATTERN >>\n"),
        RuleUseOf::Builtin(RuleHit::Security) => push_str(
            text,
            "<< AUTO-RULE: CORE SECURITY POLICIES (No SQLi, No Plaintext passwords) >>\n",
        ),
        RuleUseOf::Document(_, t) => {
            push_str(text, t.as_str());
            push_str(text, "\n");
        },
    }
}

/// The rules applied to the target files and their text.
pub struct AutoRules {
    pub uses: Vec<RuleUse>,
    pub text: String,
}

/// The rules applied to the target files: for each file, the rule documents
/// of the library that apply to it, or the fixed rules that its name
/// triggers where none does; and the text that injects them.
pub fn fetch_auto_rules(docs: &Vec<LibraryDoc>, files: &Vec<String>) -> (r: AutoRules)
    ensures
        uses_view(r.uses@) == rule_uses(docs_view(docs@), strings_view(files@)),
        r.text@ == uses_text(uses_view(r.uses@)),
{
    let ghost dv = docs_view(docs@);
    let ghost fv = strings_view(files@);
    let mut uses: Vec<RuleUse> = Vec::new();
    let mut i: usize = 0;
    assert(fv.take(0) =~= Seq::<Seq<char>>::empty());
    assert(uses_view(uses@) =~= Seq::<RuleUseView>::empty());
    while i < files.len()
        invariant
            i <= files@.len(),
            dv == docs_view(docs@),
            fv == strings_view(files@),
            uses_view(uses@) == rule_uses(dv, fv.take(i as int)),
        decreases files.len() - i,
    {
        let mut more = file_uses(docs, files[i].as_str());
        let ghost before = uses_view(uses@);
        let ghost added = uses_view(more@);
        uses.append(&mut more);
        proof {
            let t = fv.take(i + 1);
            assert(t.drop_last() =~= fv.take(i as int));
            assert(t.last() == files@[i as int]@);
            assert(uses_view(uses@) =~= before + added);
        }
        i = i + 1;
    }
    assert(fv.take(files@.len() as int) =~= fv);
    let ghost uv = uses_view(uses@);
    let mut text = String::new();
    let mut k: usize = 0;
    assert(uv.take(0) =~= Seq::<RuleUseView>::empty());
    while k < uses.len()
        invariant
            k <= uses@.len(),
            uv == uses_view(uses@),
            text@ == uses_text(uv.take(k as int)),
        decreases uses.len() - k,
    {
        push_use_text(&mut text, &uses[k]);
        proof {
            let t = uv.take(k + 1);
            assert(t.drop_last() =~= uv.take(k as int));
            assert(t.last() == uses@[k as int]@);
        }
        k = k + 1;
    }
    assert(uv.take(uses@.len() as int) =~= uv);
    AutoRules { uses, text }
}

// ---------------------------------------------------------------------------
// Skill files
// ---------------------------------------------------------------------------

/// The largest skill file, in bytes, that can be injected.
pub const MAX_SKILL_BYTES: usize = 5242880;

/// A skill file can be injected when it could be read and is not larger than
/// [`MAX_SKILL_BYTES`].
pub open spec fn skill_file_ok(read: Option<usize>) -> bool {
    match read {
        Some(n) => n <= MAX_SKILL_BYTES,
        None => false,
    }
}

/// Counts of the Markdown skill files checked for compatibility.
pub struct SkillTally {
    pub total: usize,
    pub valid: usize,
    pub errors: usize,
}

impl SkillTally {
    /// No file checked yet.
    pub fn new() -> (t: SkillTally)
        ensures
            t.total == 0,
            t.valid == 0,
            t.errors == 0,
    {
        SkillTally { total: 0, valid: 0, errors: 0 }
    }

    /// Whether one more file can be counted without overflowing a count.
    pub fn can_record(&self) -> (r: bool)
        ensures
            r == (self.total < usize::MAX && self.valid < usize::MAX && self.errors < usize::MAX),
    {
        self.total < usize::MAX && self.valid < usize::MAX && self.errors < usize::MAX
    }

    /// Counts one Markdown file: `read` is its length in bytes, or `None`
    /// where it could not be read as text.
    pub fn record(&mut self, read: Option<usize>)
        requires
            old(self).total < usize::MAX,
            old(self).valid < usize::MAX,
            old(self).errors < usize::MAX,
        ensures
            final(self).total == old(self).total + 1,
            skill_file_ok(read) ==> final(self).valid == old(self).valid + 1,
            skill_file_ok(read) ==> final(self).errors == old(self).errors,
            !skill_file_ok(read) ==> final(self).errors == old(self).errors + 1,
            !skill_file_ok(read) ==> final(self).valid == old(self).valid,
    {
        self.total = self.total + 1;
        match read {
            Some(n) => {
                if n > MAX_SKILL_BYTES {
                    self.errors = self.errors + 1;
                } else {
                    self.valid = self.valid + 1;
                }
            },
            None => {
                self.errors = self.errors + 1;
            },
        }
    }
}

} // verus!
