use bitfun::persona::{
    build_workspace_persona_prompt, markdown_placeholder_content, persona_file_description,
    persona_file_order, persona_files_to_ensure, PersonaFile,
};

#[test]
fn descriptions_by_file_name() {
    assert_eq!(
        persona_file_description("BOOTSTRAP.md"),
        "Bootstrap guidance and initialization instructions"
    );
    assert_eq!(persona_file_description("SOUL.md"), "Core persona, values, and behavioral style");
    assert_eq!(
        persona_file_description("USER.md"),
        "User profile, preferences, and collaboration expectations"
    );
    assert_eq!(
        persona_file_description("IDENTITY.MD"),
        "Identity, role definition, and self-description"
    );
    assert_eq!(persona_file_description("identity.md"), "Additional persona file");
    assert_eq!(persona_file_description(""), "Additional persona file");
}

#[test]
fn file_names_and_order() {
    let names: Vec<&str> = persona_file_order().iter().map(|f| f.file_name()).collect();
    assert_eq!(names, vec!["BOOTSTRAP.md", "SOUL.md", "USER.md", "IDENTITY.MD"]);
}

#[test]
fn only_soul_when_user_and_identity_exist_without_bootstrap() {
    assert_eq!(persona_files_to_ensure(false, true, true), vec![PersonaFile::Soul]);
}

#[test]
fn all_four_when_user_or_identity_missing_without_bootstrap() {
    let all = vec![PersonaFile::Bootstrap, PersonaFile::Soul, PersonaFile::User, PersonaFile::Identity];
    assert_eq!(persona_files_to_ensure(false, false, true), all);
    assert_eq!(persona_files_to_ensure(false, true, false), all);
    assert_eq!(persona_files_to_ensure(false, false, false), all);
}

#[test]
fn rest_of_the_set_when_bootstrap_exists() {
    let rest = vec![PersonaFile::Soul, PersonaFile::User, PersonaFile::Identity];
    assert_eq!(persona_files_to_ensure(true, true, true), rest);
    assert_eq!(persona_files_to_ensure(true, false, false), rest);
}

#[test]
fn placeholders_are_normalised_and_never_overwrite() {
    assert_eq!(markdown_placeholder_content(true, "a\r\nb"), None);
    assert_eq!(markdown_placeholder_content(false, "a\r\nb\r"), Some("a\nb\n".to_string()));
}

#[test]
fn no_documents_no_prompt() {
    assert_eq!(build_workspace_persona_prompt(&Vec::new()), None);
}

#[test]
fn prompt_with_soul_only() {
    let docs = vec![(PersonaFile::Soul, "be kind\r\n".to_string())];
    let prompt = build_workspace_persona_prompt(&docs).unwrap();
    let expected = "# Persona\n\nThe following files are located in the workspace root directory and define your role, conversational style, user profile, and related guidance.\n\n<persona>\n<persona_file name=\"SOUL.md\" description=\"Core persona, values, and behavioral style\">\nbe kind\n\n</persona_file>\n</persona>\n";
    assert_eq!(prompt, expected);
}

#[test]
fn prompt_with_bootstrap_carries_the_notice() {
    let docs = vec![
        (PersonaFile::Bootstrap, "setup".to_string()),
        (PersonaFile::User, "me".to_string()),
    ];
    let prompt = build_workspace_persona_prompt(&docs).unwrap();
    let expected = "# Persona\n\nThe following files are located in the workspace root directory and define your role, conversational style, user profile, and related guidance.\n`BOOTSTRAP.md` has been detected. You MUST follow the instructions in that file to complete the setup. After the setup is complete, `BOOTSTRAP.md` should be deleted as soon as possible.\n\n<persona>\n<persona_file name=\"BOOTSTRAP.md\" description=\"Bootstrap guidance and initialization instructions\">\nsetup\n</persona_file>\n<persona_file name=\"USER.md\" description=\"User profile, preferences, and collaboration expectations\">\nme\n</persona_file>\n</persona>\n";
    assert_eq!(prompt, expected);
}
