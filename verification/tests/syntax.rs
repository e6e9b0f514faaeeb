use xi_config::syntax::SyntaxDefinition;
use xi_config::tabs::BufferIdentifier;

#[test]
fn syntaxes_go_by_their_lower_case_names() {
    assert_eq!(SyntaxDefinition::try_from_name("yaml"), Some(SyntaxDefinition::Yaml));
    assert_eq!(SyntaxDefinition::try_from_name("rust"), Some(SyntaxDefinition::Rust));
    assert_eq!(SyntaxDefinition::try_from_name("plaintext"), Some(SyntaxDefinition::Plaintext));
    assert_eq!(SyntaxDefinition::try_from_name("makefile"), Some(SyntaxDefinition::Makefile));
    assert_eq!(SyntaxDefinition::try_from_name("objc"), Some(SyntaxDefinition::Objc));
    assert_eq!(SyntaxDefinition::try_from_name("Rust"), None);
    assert_eq!(SyntaxDefinition::try_from_name("preferences"), None);
    assert_eq!(SyntaxDefinition::try_from_name(""), None);
}

#[test]
fn every_syntax_has_its_own_number() {
    let all = [
        SyntaxDefinition::Plaintext, SyntaxDefinition::Markdown, SyntaxDefinition::Python,
        SyntaxDefinition::Rust, SyntaxDefinition::C, SyntaxDefinition::Go, SyntaxDefinition::Dart,
        SyntaxDefinition::Swift, SyntaxDefinition::Toml, SyntaxDefinition::Json, SyntaxDefinition::Yaml,
        SyntaxDefinition::Cpp, SyntaxDefinition::Objc, SyntaxDefinition::Shell, SyntaxDefinition::Ruby,
        SyntaxDefinition::Javascript, SyntaxDefinition::Java, SyntaxDefinition::Php, SyntaxDefinition::Perl,
        SyntaxDefinition::Makefile,
    ];
    for (i, a) in all.iter().enumerate() {
        assert_eq!(a.to_code() as usize, i);
        let name = format!("{:?}", a).to_lowercase();
        assert_eq!(SyntaxDefinition::try_from_name(&name), Some(*a));
    }
    assert_eq!(SyntaxDefinition::default(), SyntaxDefinition::Plaintext);
}

#[test]
fn buffer_identifiers_hold_their_number() {
    assert_eq!(BufferIdentifier::new(1), BufferIdentifier(1));
    assert_ne!(BufferIdentifier::new(1), BufferIdentifier::new(2));
}
