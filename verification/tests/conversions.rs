use tarsius::dto::{
    InsertionFlagsDto, OutlineNodeDto, ProjectDto, ProjectSettingsDto, ScratchDto, ScratchLinkDto,
    TemplateDto,
};
use tarsius::model::{
    InsertionFlags, IntegrationMode, OutlineNode, Project, ProjectSettings, Scratch, ScratchLink,
    Template,
};
use tarsius::time::Timestamp;

fn flags(body: bool, footnote: bool, reference: bool, appendix: bool) -> InsertionFlags {
    InsertionFlags { body, footnote, reference, appendix }
}

fn link(id: &str, mode: IntegrationMode, insertion: InsertionFlags) -> ScratchLink {
    ScratchLink { scratch_id: id.to_string(), mode, insertion }
}

fn node(id: &str, content: Option<&str>, children: Vec<OutlineNode>, scratches: Vec<ScratchLink>) -> OutlineNode {
    OutlineNode {
        id: id.to_string(),
        title: format!("Title of {}", id),
        content: content.map(|c| c.to_string()),
        children,
        scratches,
    }
}

// Four levels deep, with both modes and several combinations of flags.
fn deep_tree() -> OutlineNode {
    let leaf_a = node(
        "1.1.1",
        Some("deepest"),
        vec![node("1.1.1.1", None, vec![], vec![link("s9", IntegrationMode::Link, flags(true, true, true, true))])],
        vec![
            link("s1", IntegrationMode::Include, flags(true, false, false, false)),
            link("s2", IntegrationMode::Link, flags(false, true, false, true)),
        ],
    );
    let leaf_b = node("1.1.2", None, vec![], vec![]);
    let middle = node(
        "1.1",
        Some(""),
        vec![leaf_a, leaf_b],
        vec![link("s3", IntegrationMode::Link, flags(false, false, false, false))],
    );
    let sibling = node(
        "1.2",
        Some("second chapter"),
        vec![],
        vec![
            link("s2", IntegrationMode::Include, flags(false, false, true, false)),
            link("s1", IntegrationMode::Link, flags(true, true, false, false)),
        ],
    );
    node("1", None, vec![middle, sibling], vec![])
}

fn project() -> Project {
    Project {
        id: "project-1".to_string(),
        title: "My Book".to_string(),
        outline: deep_tree(),
        settings: ProjectSettings { template_id: "tmpl-1".to_string(), output_dir: "/out".to_string() },
        created_at: Timestamp::new(1_705_314_600, 0).unwrap(),
        modified_at: Timestamp::new(1_705_400_000, 500_000_000).unwrap(),
    }
}

#[test]
fn modes_travel_as_tags() {
    let inlined = ScratchLinkDto::from(link("s", IntegrationMode::Include, flags(true, false, false, false)));
    assert_eq!(inlined.mode, "Include");
    assert_eq!(inlined.scratch_id, "s");
    let linked = ScratchLinkDto::from(link("s", IntegrationMode::Link, flags(false, false, false, true)));
    assert_eq!(linked.mode, "Link");
    assert_eq!(
        linked.insertion,
        InsertionFlagsDto { body: false, footnote: false, reference: false, appendix: true }
    );
}

#[test]
fn unknown_mode_tags_read_as_include() {
    let insertion = InsertionFlagsDto { body: false, footnote: true, reference: false, appendix: false };
    for (tag, expected) in [
        ("Include", IntegrationMode::Include),
        ("Link", IntegrationMode::Link),
        ("link", IntegrationMode::Include),
        ("LINK", IntegrationMode::Include),
        ("", IntegrationMode::Include),
        ("Embed", IntegrationMode::Include),
        (" Link", IntegrationMode::Include),
    ] {
        let dto = ScratchLinkDto { scratch_id: "s".to_string(), mode: tag.to_string(), insertion };
        let link = ScratchLink::from(dto);
        assert_eq!(link.mode, expected, "tag {:?}", tag);
        assert_eq!(link.scratch_id, "s");
        assert_eq!(link.insertion, flags(false, true, false, false));
    }
}

#[test]
fn flags_convert_independently() {
    for bits in 0..16u8 {
        let given = flags(bits & 1 != 0, bits & 2 != 0, bits & 4 != 0, bits & 8 != 0);
        let dto = InsertionFlagsDto::from(given);
        assert_eq!(
            (dto.body, dto.footnote, dto.reference, dto.appendix),
            (given.body, given.footnote, given.reference, given.appendix)
        );
        assert_eq!(InsertionFlags::from(dto), given);
    }
}

#[test]
fn outline_round_trip_reproduces_the_tree() {
    let tree = deep_tree();
    let dto = OutlineNodeDto::from(tree.clone());
    assert_eq!(dto.id, "1");
    assert_eq!(dto.children.len(), 2);
    assert_eq!(dto.children[0].children[0].children[0].id, "1.1.1.1");
    assert_eq!(dto.children[0].children[0].children[0].scratches[0].mode, "Link");
    assert_eq!(dto.children[0].children[0].scratches[0].mode, "Include");
    assert_eq!(dto.children[0].children[0].scratches[1].mode, "Link");
    assert_eq!(dto.children[0].content, Some(String::new()));
    assert_eq!(dto.children[1].scratches[0].scratch_id, "s2");
    assert_eq!(dto.children[1].scratches[1].scratch_id, "s1");
    let back = OutlineNode::try_from(dto).unwrap();
    assert_eq!(back, tree);
}

#[test]
fn outline_round_trip_defaults_an_injected_invalid_mode() {
    let tree = deep_tree();
    let mut dto = OutlineNodeDto::from(tree.clone());
    dto.children[0].children[0].scratches[1].mode = "Transclude".to_string();
    let back = OutlineNode::try_from(dto).unwrap();
    let mut expected = tree;
    expected.children[0].children[0].scratches[1].mode = IntegrationMode::Include;
    assert_eq!(back, expected);
}

#[test]
fn outline_mirror_round_trip_keeps_recognized_tags() {
    let dto = OutlineNodeDto::from(deep_tree());
    let again = OutlineNodeDto::from(OutlineNode::try_from(dto.clone()).unwrap());
    assert_eq!(again, dto);
}

#[test]
fn outline_clone_copies_the_whole_tree() {
    let tree = deep_tree();
    assert_eq!(tree.clone(), tree);
    let dto = OutlineNodeDto::from(tree);
    assert_eq!(dto.clone(), dto);
}

#[test]
fn scratch_mirror_has_rfc3339_timestamps() {
    let scratch = Scratch {
        id: "s-1".to_string(),
        title: "Idea".to_string(),
        content: "Write it down".to_string(),
        created_at: Timestamp::new(1_705_314_600, 0).unwrap(),
        modified_at: Timestamp::new(1_705_314_601, 250_000_000).unwrap(),
        tags: vec!["b".to_string(), "a".to_string()],
        source: Some("notebook".to_string()),
    };
    let dto = ScratchDto::from(scratch.clone());
    assert_eq!(
        dto,
        ScratchDto {
            id: "s-1".to_string(),
            title: "Idea".to_string(),
            content: "Write it down".to_string(),
            created_at: "2024-01-15T10:30:00+00:00".to_string(),
            modified_at: "2024-01-15T10:30:01.250+00:00".to_string(),
            tags: vec!["b".to_string(), "a".to_string()],
            source: Some("notebook".to_string()),
        }
    );
    assert_eq!(Scratch::try_from(dto), Ok(scratch));
}

#[test]
fn scratch_from_mirror_fails_on_the_first_bad_timestamp() {
    let dto = ScratchDto {
        id: "s".to_string(),
        title: String::new(),
        content: String::new(),
        created_at: "yesterday".to_string(),
        modified_at: "2024-13-01T00:00:00Z".to_string(),
        tags: vec![],
        source: None,
    };
    assert_eq!(Scratch::try_from(dto.clone()), Err("premature end of input".to_string()));
    let dto = ScratchDto { created_at: "2024-01-15T10:30:00Z".to_string(), ..dto };
    assert_eq!(Scratch::try_from(dto), Err("input is out of range".to_string()));
}

#[test]
fn project_round_trips_through_its_mirror() {
    let given = project();
    let dto = ProjectDto::from(given.clone());
    assert_eq!(dto.id, "project-1");
    assert_eq!(dto.title, "My Book");
    assert_eq!(dto.created_at, "2024-01-15T10:30:00+00:00");
    assert_eq!(dto.modified_at, "2024-01-16T10:13:20.500+00:00");
    assert_eq!(dto.settings.template_id, "tmpl-1");
    assert_eq!(dto.settings.output_dir, "/out");
    assert_eq!(dto.outline, OutlineNodeDto::from(deep_tree()));
    assert_eq!(Project::try_from(dto), Ok(given));
}

#[test]
fn project_from_mirror_normalizes_offsets_to_utc() {
    let mut dto = ProjectDto::from(project());
    dto.created_at = "2024-01-15T11:30:00+01:00".to_string();
    let back = Project::try_from(dto).unwrap();
    assert_eq!(back.created_at, Timestamp::new(1_705_314_600, 0).unwrap());
}

#[test]
fn project_from_mirror_fails_on_malformed_timestamps() {
    let good = ProjectDto::from(project());
    let bad_created = ProjectDto { created_at: "2024-01-15 10h30".to_string(), ..good.clone() };
    assert_eq!(Project::try_from(bad_created), Err("premature end of input".to_string()));
    let bad_modified = ProjectDto { modified_at: "2024-01-15T10:30:00+01:00x".to_string(), ..good.clone() };
    assert_eq!(Project::try_from(bad_modified), Err("trailing input".to_string()));
    let both = ProjectDto {
        created_at: "2024-02-30T00:00:00Z".to_string(),
        modified_at: String::new(),
        ..good
    };
    assert_eq!(Project::try_from(both), Err("input is out of range".to_string()));
}

#[test]
fn settings_and_templates_mirror_field_by_field() {
    let settings = ProjectSettings { template_id: "t".to_string(), output_dir: "/o".to_string() };
    let dto = ProjectSettingsDto::from(settings.clone());
    assert_eq!(dto, ProjectSettingsDto { template_id: "t".to_string(), output_dir: "/o".to_string() });
    assert_eq!(ProjectSettings::from(dto), settings);
    let template = Template { id: "t".to_string(), name: "Novel".to_string(), content: "body".to_string() };
    let dto = TemplateDto::from(template.clone());
    assert_eq!(
        dto,
        TemplateDto { id: "t".to_string(), name: "Novel".to_string(), content: "body".to_string() }
    );
    assert_eq!(Template::from(dto), template);
}

#[test]
fn root_node_is_titled_root_and_empty() {
    let root = OutlineNode::root("r-1".to_string());
    assert_eq!(
        root,
        OutlineNode {
            id: "r-1".to_string(),
            title: "Root".to_string(),
            content: None,
            children: vec![],
            scratches: vec![],
        }
    );
}
