//! Workspace persona files: which placeholder files to create, and the persona prompt
//! that is assembled from the files found in the workspace root.

use vstd::prelude::*;
use crate::text::{normalize_line_endings, normalized, str_eq};

verus! {

pub const BOOTSTRAP_FILE_NAME: &'static str = "BOOTSTRAP.md";
pub const SOUL_FILE_NAME: &'static str = "SOUL.md";
pub const USER_FILE_NAME: &'static str = "USER.md";
pub const IDENTITY_FILE_NAME: &'static str = "IDENTITY.MD";

pub const BOOTSTRAP_DESCRIPTION: &'static str = "Bootstrap guidance and initialization instructions";
pub const SOUL_DESCRIPTION: &'static str = "Core persona, values, and behavioral style";
pub const USER_DESCRIPTION: &'static str = "User profile, preferences, and collaboration expectations";
pub const IDENTITY_DESCRIPTION: &'static str = "Identity, role definition, and self-description";
pub const OTHER_DESCRIPTION: &'static str = "Additional persona file";

/// The description that the prompt gives a persona file, by its file name.
pub open spec fn description_of(file_name: Seq<char>) -> Seq<char> {
    if file_name == BOOTSTRAP_FILE_NAME@ {
        BOOTSTRAP_DESCRIPTION@
    } else if file_name == SOUL_FILE_NAME@ {
        SOUL_DESCRIPTION@
    } else if file_name == USER_FILE_NAME@ {
        USER_DESCRIPTION@
    } else if file_name == IDENTITY_FILE_NAME@ {
        IDENTITY_DESCRIPTION@
    } else {
        OTHER_DESCRIPTION@
    }
}

/// Each persona file's name gets its own description, and any other name the
/// description of an additional file; no two persona files share a description.
pub proof fn lemma_persona_descriptions(other: Seq<char>)
    requires
        other != BOOTSTRAP_FILE_NAME@ && other != SOUL_FILE_NAME@ && other != USER_FILE_NAME@
            && other != IDENTITY_FILE_NAME@,
    ensures
        description_of("BOOTSTRAP.md"@) == "Bootstrap guidance and initialization instructions"@,
        description_of("SOUL.md"@) == "Core persona, values, and behavioral style"@,
        description_of("USER.md"@) == "User profile, preferences, and collaboration expectations"@,
        description_of("IDENTITY.MD"@) == "Identity, role definition, and self-description"@,
        description_of(other) == "Additional persona file"@,
{
    reveal_strlit("BOOTSTRAP.md");
    reveal_strlit("SOUL.md");
    reveal_strlit("USER.md");
    reveal_strlit("IDENTITY.MD");
    assert("BOOTSTRAP.md"@[0] == 'B' && "SOUL.md"@[0] == 'S' && "USER.md"@[0] == 'U' && "IDENTITY.MD"@[0] == 'I');
}

pub fn persona_file_description(file_name: &str) -> (r: &'static str)
    ensures
        r@ == description_of(file_name@),
{
    if str_eq(file_name, BOOTSTRAP_FILE_NAME) {
        BOOTSTRAP_DESCRIPTION
    } else if str_eq(file_name, SOUL_FILE_NAME) {
        SOUL_DESCRIPTION
    } else if str_eq(file_name, USER_FILE_NAME) {
        USER_DESCRIPTION
    } else if str_eq(file_name, IDENTITY_FILE_NAME) {
        IDENTITY_DESCRIPTION
    } else {
        OTHER_DESCRIPTION
    }
}

/// One of the four persona files of a workspace.
#[derive(Clone, Copy, Debug, PartialEq, Eq, Structural)]
pub enum PersonaFile {
    Bootstrap,
    Soul,
    User,
    Identity,
}

/// The file name of a persona file.
pub open spec fn file_name_of(file: PersonaFile) -> Seq<char> {
    match file {
        PersonaFile::Bootstrap => BOOTSTRAP_FILE_NAME@,
        PersonaFile::Soul => SOUL_FILE_NAME@,
        PersonaFile::User => USER_FILE_NAME@,
        PersonaFile::Identity => IDENTITY_FILE_NAME@,
    }
}

impl PersonaFile {
    pub fn file_name(&self) -> (r: &'static str)
        ensures
            r@ == file_name_of(*self),
    {
        match self {
            PersonaFile::Bootstrap => BOOTSTRAP_FILE_NAME,
            PersonaFile::Soul => SOUL_FILE_NAME,
            PersonaFile::User => USER_FILE_NAME,
            PersonaFile::Identity => IDENTITY_FILE_NAME,
        }
    }
}

/// The persona files in the order in which the prompt lists them.
pub open spec fn persona_order() -> Seq<PersonaFile> {
    seq![PersonaFile::Bootstrap, PersonaFile::Soul, PersonaFile::User, PersonaFile::Identity]
}

pub fn persona_file_order() -> (r: Vec<PersonaFile>)
    ensures
        r@ == persona_order(),
{
    vec![PersonaFile::Bootstrap, PersonaFile::Soul, PersonaFile::User, PersonaFile::Identity]
}

/// Which persona files exist in a workspace root.
#[derive(Clone, Copy, Debug, PartialEq, Eq, Structural)]
pub struct PersonaPresence {
    pub bootstrap: bool,
    pub soul: bool,
    pub user: bool,
    pub identity: bool,
}

/// The files for which a placeholder is ensured, given which of BOOTSTRAP, USER and
/// IDENTITY exist: with no BOOTSTRAP but both USER and IDENTITY, only SOUL; with no
/// BOOTSTRAP and USER or IDENTITY missing, all four; with BOOTSTRAP, the other three.
pub open spec fn files_to_ensure(bootstrap_exists: bool, user_exists: bool, identity_exists: bool) -> Seq<PersonaFile> {
    if !bootstrap_exists {
        if user_exists && identity_exists {
            seq![PersonaFile::Soul]
        } else {
            seq![PersonaFile::Bootstrap, PersonaFile::Soul, PersonaFile::User, PersonaFile::Identity]
        }
    } else {
        seq![PersonaFile::Soul, PersonaFile::User, PersonaFile::Identity]
    }
}

pub fn persona_files_to_ensure(bootstrap_exists: bool, user_exists: bool, identity_exists: bool) -> (r: Vec<PersonaFile>)
    ensures
        r@ == files_to_ensure(bootstrap_exists, user_exists, identity_exists),
{
    if !bootstrap_exists {
        if user_exists && identity_exists {
            vec![PersonaFile::Soul]
        } else {
            vec![PersonaFile::Bootstrap, PersonaFile::Soul, PersonaFile::User, PersonaFile::Identity]
        }
    } else {
        vec![PersonaFile::Soul, PersonaFile::User, PersonaFile::Identity]
    }
}

/// Whether `file` exists in `p`.
pub open spec fn present(p: PersonaPresence, file: PersonaFile) -> bool {
    match file {
        PersonaFile::Bootstrap => p.bootstrap,
        PersonaFile::Soul => p.soul,
        PersonaFile::User => p.user,
        PersonaFile::Identity => p.identity,
    }
}

/// The presence after a placeholder has been ensured for each file of `files`.
pub open spec fn presence_after(p: PersonaPresence, files: Seq<PersonaFile>) -> PersonaPresence {
    PersonaPresence {
        bootstrap: p.bootstrap || files.contains(PersonaFile::Bootstrap),
        soul: p.soul || files.contains(PersonaFile::Soul),
        user: p.user || files.contains(PersonaFile::User),
        identity: p.identity || files.contains(PersonaFile::Identity),
    }
}

/// The persona files are named BOOTSTRAP.md, SOUL.md, USER.md and IDENTITY.MD, are
/// listed in that order, and each is described by its own description.
pub proof fn lemma_persona_file_names()
    ensures
        file_name_of(PersonaFile::Bootstrap) == "BOOTSTRAP.md"@,
        file_name_of(PersonaFile::Soul) == "SOUL.md"@,
        file_name_of(PersonaFile::User) == "USER.md"@,
        file_name_of(PersonaFile::Identity) == "IDENTITY.MD"@,
        persona_order() == seq![PersonaFile::Bootstrap, PersonaFile::Soul, PersonaFile::User, PersonaFile::Identity],
        description_of(file_name_of(PersonaFile::Bootstrap)) == "Bootstrap guidance and initialization instructions"@,
        description_of(file_name_of(PersonaFile::Soul)) == "Core persona, values, and behavioral style"@,
        description_of(file_name_of(PersonaFile::User)) == "User profile, preferences, and collaboration expectations"@,
        description_of(file_name_of(PersonaFile::Identity)) == "Identity, role definition, and self-description"@,
{
    reveal_strlit("BOOTSTRAP.md");
    reveal_strlit("SOUL.md");
    reveal_strlit("USER.md");
    reveal_strlit("IDENTITY.MD");
    assert("BOOTSTRAP.md"@[0] == 'B' && "SOUL.md"@[0] == 'S' && "USER.md"@[0] == 'U' && "IDENTITY.MD"@[0] == 'I');
}

/// After the persona files have been ensured, SOUL, USER and IDENTITY exist, unless
/// BOOTSTRAP was absent while USER and IDENTITY were both present, in which case only
/// SOUL is added; BOOTSTRAP is created only when it was absent and USER or IDENTITY
/// was missing.
pub proof fn lemma_ensured_persona_set(p: PersonaPresence)
    ensures
        ({
            let after = presence_after(p, files_to_ensure(p.bootstrap, p.user, p.identity));
            &&& after.soul
            &&& after.user
            &&& after.identity
            &&& after.bootstrap == (p.bootstrap || !(p.user && p.identity))
        }),
{
    let files = files_to_ensure(p.bootstrap, p.user, p.identity);
    if !p.bootstrap {
        if p.user && p.identity {
            assert(files[0] == PersonaFile::Soul);
            assert(!files.contains(PersonaFile::Bootstrap)) by {
                if files.contains(PersonaFile::Bootstrap) {
                    let k = choose|k: int| 0 <= k < files.len() && files[k] == PersonaFile::Bootstrap;
                }
            }
        } else {
            assert(files[0] == PersonaFile::Bootstrap);
            assert(files[1] == PersonaFile::Soul);
            assert(files[2] == PersonaFile::User);
            assert(files[3] == PersonaFile::Identity);
        }
    } else {
        assert(files[0] == PersonaFile::Soul);
        assert(files[1] == PersonaFile::User);
        assert(files[2] == PersonaFile::Identity);
    }
}

/// The text written for a placeholder that does not exist yet, or `None` when the file
/// exists already and is left alone.
pub fn markdown_placeholder_content(exists: bool, template: &str) -> (r: Option<String>)
    ensures
        exists ==> r is None,
        !exists ==> (r matches Some(t) && t@ == normalized(template@)),
{
    if exists {
        None
    } else {
        Some(normalize_line_endings(template))
    }
}

pub const PROMPT_HEADING: &'static str = "# Persona\n\nThe following files are located in the workspace root directory and define your role, conversational style, user profile, and related guidance.";
pub const BOOTSTRAP_NOTICE: &'static str = "\n`BOOTSTRAP.md` has been detected. You MUST follow the instructions in that file to complete the setup. After the setup is complete, `BOOTSTRAP.md` should be deleted as soon as possible.";
pub const PARAGRAPH_BREAK: &'static str = "\n\n";
pub const PERSONA_OPEN: &'static str = "<persona>\n";
pub const PERSONA_CLOSE: &'static str = "</persona>";
pub const LINE_END: &'static str = "\n";
pub const ENTRY_NAME_OPEN: &'static str = "<persona_file name=\"";
pub const ENTRY_DESCRIPTION_OPEN: &'static str = "\" description=\"";
pub const ENTRY_HEAD_CLOSE: &'static str = "\">\n";
pub const ENTRY_CLOSE: &'static str = "\n</persona_file>\n";

/// One `<persona_file>` element of the prompt; the content is normalised.
pub open spec fn persona_entry(file: PersonaFile, content: Seq<char>) -> Seq<char> {
    ENTRY_NAME_OPEN@ + file_name_of(file) + ENTRY_DESCRIPTION_OPEN@ + description_of(file_name_of(file))
        + ENTRY_HEAD_CLOSE@ + normalized(content) + ENTRY_CLOSE@
}

/// The `<persona_file>` elements of all documents, in their order.
pub open spec fn persona_entries(docs: Seq<(PersonaFile, String)>) -> Seq<char>
    decreases docs.len(),
{
    if docs.len() == 0 {
        Seq::empty()
    } else {
        persona_entries(docs.drop_last()) + persona_entry(docs.last().0, docs.last().1@)
    }
}

/// Whether one of the documents is BOOTSTRAP.
pub open spec fn bootstrap_detected(docs: Seq<(PersonaFile, String)>) -> bool {
    exists|i: int| 0 <= i < docs.len() && #[trigger] docs[i].0 == PersonaFile::Bootstrap
}

/// The persona prompt for the documents read from the workspace root, `None` when
/// there are none.
pub open spec fn persona_prompt(docs: Seq<(PersonaFile, String)>) -> Option<Seq<char>> {
    if docs.len() == 0 {
        None
    } else {
        Some(
            PROMPT_HEADING@ + (if bootstrap_detected(docs) { BOOTSTRAP_NOTICE@ } else { Seq::empty() })
                + PARAGRAPH_BREAK@ + PERSONA_OPEN@ + persona_entries(docs) + PERSONA_CLOSE@ + LINE_END@,
        )
    }
}

/// The prompt carries the BOOTSTRAP notice exactly when one of the documents is the
/// BOOTSTRAP file: without it, the heading is followed directly by the paragraph break
/// and the `<persona>` block; with it, the notice stands between them.
pub proof fn lemma_notice_iff_bootstrap(docs: Seq<(PersonaFile, String)>)
    requires
        docs.len() > 0,
    ensures
        (forall|i: int| 0 <= i < docs.len() ==> docs[i].0 != PersonaFile::Bootstrap) ==> persona_prompt(docs)
            == Some(PROMPT_HEADING@ + PARAGRAPH_BREAK@ + PERSONA_OPEN@ + persona_entries(docs) + PERSONA_CLOSE@ + LINE_END@),
        (exists|i: int| 0 <= i < docs.len() && docs[i].0 == PersonaFile::Bootstrap) ==> persona_prompt(docs)
            == Some(PROMPT_HEADING@ + BOOTSTRAP_NOTICE@ + PARAGRAPH_BREAK@ + PERSONA_OPEN@ + persona_entries(docs) + PERSONA_CLOSE@ + LINE_END@),
{
    if forall|i: int| 0 <= i < docs.len() ==> docs[i].0 != PersonaFile::Bootstrap {
        assert(!bootstrap_detected(docs));
        assert(PROMPT_HEADING@ + Seq::<char>::empty() == PROMPT_HEADING@);
    } else {
        let i = choose|i: int| 0 <= i < docs.len() && docs[i].0 == PersonaFile::Bootstrap;
        assert(bootstrap_detected(docs));
    }
}

/// Assembles the persona prompt from the documents (file and raw content) that were
/// read from the workspace root.
pub fn build_workspace_persona_prompt(documents: &Vec<(PersonaFile, String)>) -> (r: Option<String>)
    ensures
        match persona_prompt(documents@) {
            Some(p) => r matches Some(s) && s@ == p,
            None => r is None,
        },
{
    if documents.len() == 0 {
        return None;
    }
    let mut detected = false;
    let mut entries = String::new();
    let mut i: usize = 0;
    while i < documents.len()
        invariant
            i <= documents@.len(),
            entries@ == persona_entries(documents@.take(i as int)),
            detected == exists|j: int| 0 <= j < i && #[trigger] documents@[j].0 == PersonaFile::Bootstrap,
        decreases documents@.len() - i,
    {
        let file = documents[i].0;
        assert(documents@.take(i + 1).drop_last() == documents@.take(i as int));
        let name = file.file_name();
        entries.append(ENTRY_NAME_OPEN);
        entries.append(name);
        entries.append(ENTRY_DESCRIPTION_OPEN);
        entries.append(persona_file_description(name));
        entries.append(ENTRY_HEAD_CLOSE);
        let content = normalize_line_endings(documents[i].1.as_str());
        entries.append(content.as_str());
        entries.append(ENTRY_CLOSE);
        if file == PersonaFile::Bootstrap {
            detected = true;
        }
        i = i + 1;
    }
    assert(documents@.take(documents@.len() as int) == documents@);
    let mut prompt = String::from_str(PROMPT_HEADING);
    if detected {
        prompt.append(BOOTSTRAP_NOTICE);
    }
    prompt.append(PARAGRAPH_BREAK);
    prompt.append(PERSONA_OPEN);
    prompt.append(entries.as_str());
    prompt.append(PERSONA_CLOSE);
    prompt.append(LINE_END);
    Some(prompt)
}

} // verus!
