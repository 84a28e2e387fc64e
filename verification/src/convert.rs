//! The conversions between entities and their transfer mirrors.
//!
//! Every conversion is stated over the mathematical content of its argument
//! and result. Going from an entity to its mirror loses nothing; going back
//! fails only on a timestamp that cannot be read. A mode tag that is not
//! recognized is read as `Include`.

use crate::dto::{
    link_dtos_view, InsertionFlagsDto, OutlineNodeDto, OutlineNodeDtoView, ProjectDto,
    ProjectDtoView, ProjectSettingsDto, ScratchDto, ScratchDtoView, ScratchLinkDto,
    ScratchLinkDtoView, TemplateDto,
};
use crate::model::{
    links_view, InsertionFlags, IntegrationMode, OutlineNode, OutlineNodeView, Project,
    ProjectSettings, ProjectView, Scratch, ScratchLink, ScratchLinkView, ScratchView, Template,
};
use crate::time::{parsed_instant, rfc3339_text, Timestamp};
use vstd::prelude::*;
use vstd::std_specs::convert::{FromSpecImpl, TryFromSpecImpl};
use vstd::string::*;

verus! {

/// The tag under which a mode travels.
pub open spec fn mode_tag(mode: IntegrationMode) -> Seq<char> {
    match mode {
        IntegrationMode::Include => "Include"@,
        IntegrationMode::Link => "Link"@,
    }
}

/// The mode that a tag stands for; a tag that is not recognized stands for
/// `Include`.
pub open spec fn mode_of_tag(tag: Seq<char>) -> IntegrationMode {
    if tag == "Include"@ {
        IntegrationMode::Include
    } else if tag == "Link"@ {
        IntegrationMode::Link
    } else {
        IntegrationMode::Include
    }
}

/// The mirror of a set of insertion flags.
pub open spec fn flags_to_dto(flags: InsertionFlags) -> InsertionFlagsDto {
    InsertionFlagsDto {
        body: flags.body,
        footnote: flags.footnote,
        reference: flags.reference,
        appendix: flags.appendix,
    }
}

/// The insertion flags that a mirror stands for.
pub open spec fn flags_from_dto(dto: InsertionFlagsDto) -> InsertionFlags {
    InsertionFlags {
        body: dto.body,
        footnote: dto.footnote,
        reference: dto.reference,
        appendix: dto.appendix,
    }
}

/// The mirror of a link.
pub open spec fn link_to_dto(link: ScratchLinkView) -> ScratchLinkDtoView {
    ScratchLinkDtoView {
        scratch_id: link.scratch_id,
        mode: mode_tag(link.mode),
        insertion: flags_to_dto(link.insertion),
    }
}

/// The link that a mirror stands for.
pub open spec fn link_from_dto(dto: ScratchLinkDtoView) -> ScratchLinkView {
    ScratchLinkView {
        scratch_id: dto.scratch_id,
        mode: mode_of_tag(dto.mode),
        insertion: flags_from_dto(dto.insertion),
    }
}

/// The mirror of an outline subtree: every node and link converted in place.
pub open spec fn node_to_dto(node: OutlineNodeView) -> OutlineNodeDtoView
    decreases node,
{
    OutlineNodeDtoView {
        id: node.id,
        title: node.title,
        content: node.content,
        children: Seq::new(
            node.children.len(),
            |i: int|
                if 0 <= i < node.children.len() {
                    node_to_dto(node.children[i])
                } else {
                    arbitrary()
                },
        ),
        scratches: node.scratches.map_values(|l: ScratchLinkView| link_to_dto(l)),
    }
}

/// The outline subtree that a mirror stands for.
pub open spec fn node_from_dto(dto: OutlineNodeDtoView) -> OutlineNodeView
    decreases dto,
{
    OutlineNodeView {
        id: dto.id,
        title: dto.title,
        content: dto.content,
        children: Seq::new(
            dto.children.len(),
            |i: int|
                if 0 <= i < dto.children.len() {
                    node_from_dto(dto.children[i])
                } else {
                    arbitrary()
                },
        ),
        scratches: dto.scratches.map_values(|l: ScratchLinkDtoView| link_from_dto(l)),
    }
}

/// The mirror of a scratch.
pub open spec fn scratch_to_dto(scratch: ScratchView) -> ScratchDtoView {
    ScratchDtoView {
        id: scratch.id,
        title: scratch.title,
        content: scratch.content,
        created_at: rfc3339_text(scratch.created_at.secs, scratch.created_at.nanos),
        modified_at: rfc3339_text(scratch.modified_at.secs, scratch.modified_at.nanos),
        tags: scratch.tags,
        source: scratch.source,
    }
}

/// The scratch that a mirror stands for, or the message of the first
/// timestamp, creation before modification, that cannot be read.
pub open spec fn scratch_from_dto(dto: ScratchDtoView) -> Result<ScratchView, Seq<char>> {
    match parsed_instant(dto.created_at) {
        Err(message) => Err(message),
        Ok(created_at) => match parsed_instant(dto.modified_at) {
            Err(message) => Err(message),
            Ok(modified_at) => Ok(
                ScratchView {
                    id: dto.id,
                    title: dto.title,
                    content: dto.content,
                    created_at,
                    modified_at,
                    tags: dto.tags,
                    source: dto.source,
                },
            ),
        },
    }
}

/// The mirror of a project.
pub open spec fn project_to_dto(project: ProjectView) -> ProjectDtoView {
    ProjectDtoView {
        id: project.id,
        title: project.title,
        outline: node_to_dto(project.outline),
        settings: project.settings,
        created_at: rfc3339_text(project.created_at.secs, project.created_at.nanos),
        modified_at: rfc3339_text(project.modified_at.secs, project.modified_at.nanos),
    }
}

/// The project that a mirror stands for, or the message of the first
/// timestamp, creation before modification, that cannot be read.
pub open spec fn project_from_dto(dto: ProjectDtoView) -> Result<ProjectView, Seq<char>> {
    match parsed_instant(dto.created_at) {
        Err(message) => Err(message),
        Ok(created_at) => match parsed_instant(dto.modified_at) {
            Err(message) => Err(message),
            Ok(modified_at) => Ok(
                ProjectView {
                    id: dto.id,
                    title: dto.title,
                    outline: node_from_dto(dto.outline),
                    settings: dto.settings,
                    created_at,
                    modified_at,
                },
            ),
        },
    }
}

/// The tag for `mode`, as a string.
fn tag_of_mode(mode: IntegrationMode) -> (tag: String)
    ensures
        tag@ == mode_tag(mode),
{
    match mode {
        IntegrationMode::Include => String::from_str("Include"),
        IntegrationMode::Link => String::from_str("Link"),
    }
}

/// The mode that `tag` stands for.
fn mode_from_tag(tag: &String) -> (mode: IntegrationMode)
    ensures
        mode == mode_of_tag(tag@),
{
    let inline_tag = String::from_str("Include");
    let link_tag = String::from_str("Link");
    if *tag == inline_tag {
        IntegrationMode::Include
    } else if *tag == link_tag {
        IntegrationMode::Link
    } else {
        IntegrationMode::Include
    }
}

/// The mirror of `link`.
fn link_dto_of(link: &ScratchLink) -> (dto: ScratchLinkDto)
    ensures
        dto@ == link_to_dto(link@),
{
    ScratchLinkDto {
        scratch_id: link.scratch_id.clone(),
        mode: tag_of_mode(link.mode),
        insertion: InsertionFlagsDto::from(link.insertion),
    }
}

/// The link that `dto` stands for.
fn link_of_dto(dto: &ScratchLinkDto) -> (link: ScratchLink)
    ensures
        link@ == link_from_dto(dto@),
{
    ScratchLink {
        scratch_id: dto.scratch_id.clone(),
        mode: mode_from_tag(&dto.mode),
        insertion: InsertionFlags::from(dto.insertion),
    }
}

/// The mirrors of `links`, in order.
fn link_dtos_of(links: &Vec<ScratchLink>) -> (dtos: Vec<ScratchLinkDto>)
    ensures
        link_dtos_view(dtos@) == links_view(links@).map_values(|l: ScratchLinkView| link_to_dto(l)),
{
    let mut dtos: Vec<ScratchLinkDto> = Vec::new();
    let mut i: usize = 0;
    while i < links.len()
        invariant
            i <= links.len(),
            dtos.len() == i,
            forall|j: int| 0 <= j < i ==> dtos[j]@ == link_to_dto(links[j]@),
        decreases links.len() - i,
    {
        dtos.push(link_dto_of(&links[i]));
        i = i + 1;
    }
    assert(link_dtos_view(dtos@) =~= links_view(links@).map_values(
        |l: ScratchLinkView| link_to_dto(l),
    ));
    dtos
}

/// The links that `dtos` stand for, in order.
fn links_of_dtos(dtos: &Vec<ScratchLinkDto>) -> (links: Vec<ScratchLink>)
    ensures
        links_view(links@) == link_dtos_view(dtos@).map_values(
            |l: ScratchLinkDtoView| link_from_dto(l),
        ),
{
    let mut links: Vec<ScratchLink> = Vec::new();
    let mut i: usize = 0;
    while i < dtos.len()
        invariant
            i <= dtos.len(),
            links.len() == i,
            forall|j: int| 0 <= j < i ==> links[j]@ == link_from_dto(dtos[j]@),
        decreases dtos.len() - i,
    {
        links.push(link_of_dto(&dtos[i]));
        i = i + 1;
    }
    assert(links_view(links@) =~= link_dtos_view(dtos@).map_values(
        |l: ScratchLinkDtoView| link_from_dto(l),
    ));
    links
}

/// The mirror of the subtree rooted at `node`, built depth-first.
fn node_dto_of(node: &OutlineNode) -> (dto: OutlineNodeDto)
    ensures
        dto@ == node_to_dto(node@),
    decreases node,
{
    let mut children: Vec<OutlineNodeDto> = Vec::new();
    let mut i: usize = 0;
    while i < node.children.len()
        invariant
            i <= node.children.len(),
            children.len() == i,
            forall|j: int| 0 <= j < i ==> children[j]@ == node_to_dto(node.children[j]@),
        decreases node.children.len() - i,
    {
        let child = node_dto_of(&node.children[i]);
        children.push(child);
        i = i + 1;
    }
    let dto = OutlineNodeDto {
        id: node.id.clone(),
        title: node.title.clone(),
        content: node.content.clone(),
        children,
        scratches: link_dtos_of(&node.scratches),
    };
    assert(dto@.children =~= node_to_dto(node@).children);
    dto
}

/// The subtree that `dto` stands for, built depth-first.
fn node_of_dto(dto: &OutlineNodeDto) -> (node: OutlineNode)
    ensures
        node@ == node_from_dto(dto@),
    decreases dto,
{
    let mut children: Vec<OutlineNode> = Vec::new();
    let mut i: usize = 0;
    while i < dto.children.len()
        invariant
            i <= dto.children.len(),
            children.len() == i,
            forall|j: int| 0 <= j < i ==> children[j]@ == node_from_dto(dto.children[j]@),
        decreases dto.children.len() - i,
    {
        let child = node_of_dto(&dto.children[i]);
        children.push(child);
        i = i + 1;
    }
    let node = OutlineNode {
        id: dto.id.clone(),
        title: dto.title.clone(),
        content: dto.content.clone(),
        children,
        scratches: links_of_dtos(&dto.scratches),
    };
    assert(node@.children =~= node_from_dto(dto@).children);
    node
}

impl From<InsertionFlags> for InsertionFlagsDto {
    fn from(i: InsertionFlags) -> (dto: InsertionFlagsDto)
        ensures
            dto == flags_to_dto(i),
    {
        InsertionFlagsDto {
            body: i.body,
            footnote: i.footnote,
            reference: i.reference,
            appendix: i.appendix,
        }
    }
}

impl FromSpecImpl<InsertionFlags> for InsertionFlagsDto {
    open spec fn obeys_from_spec() -> bool {
        true
    }

    open spec fn from_spec(i: InsertionFlags) -> InsertionFlagsDto {
        flags_to_dto(i)
    }
}

impl From<InsertionFlagsDto> for InsertionFlags {
    fn from(dto: InsertionFlagsDto) -> (flags: InsertionFlags)
        ensures
            flags == flags_from_dto(dto),
    {
        InsertionFlags {
            body: dto.body,
            footnote: dto.footnote,
            reference: dto.reference,
            appendix: dto.appendix,
        }
    }
}

impl FromSpecImpl<InsertionFlagsDto> for InsertionFlags {
    open spec fn obeys_from_spec() -> bool {
        true
    }

    open spec fn from_spec(dto: InsertionFlagsDto) -> InsertionFlags {
        flags_from_dto(dto)
    }
}

impl From<ProjectSettings> for ProjectSettingsDto {
    fn from(p: ProjectSettings) -> (dto: ProjectSettingsDto)
        ensures
            dto@ == p@,
    {
        ProjectSettingsDto { template_id: p.template_id, output_dir: p.output_dir }
    }
}

impl FromSpecImpl<ProjectSettings> for ProjectSettingsDto {
    open spec fn obeys_from_spec() -> bool {
        true
    }

    open spec fn from_spec(p: ProjectSettings) -> ProjectSettingsDto {
        ProjectSettingsDto { template_id: p.template_id, output_dir: p.output_dir }
    }
}

impl From<ProjectSettingsDto> for ProjectSettings {
    fn from(dto: ProjectSettingsDto) -> (settings: ProjectSettings)
        ensures
            settings@ == dto@,
    {
        ProjectSettings { template_id: dto.template_id, output_dir: dto.output_dir }
    }
}

impl FromSpecImpl<ProjectSettingsDto> for ProjectSettings {
    open spec fn obeys_from_spec() -> bool {
        true
    }

    open spec fn from_spec(dto: ProjectSettingsDto) -> ProjectSettings {
        ProjectSettings { template_id: dto.template_id, output_dir: dto.output_dir }
    }
}

impl From<Template> for TemplateDto {
    fn from(t: Template) -> (dto: TemplateDto)
        ensures
            dto@ == t@,
    {
        TemplateDto { id: t.id, name: t.name, content: t.content }
    }
}

impl FromSpecImpl<Template> for TemplateDto {
    open spec fn obeys_from_spec() -> bool {
        true
    }

    open spec fn from_spec(t: Template) -> TemplateDto {
        TemplateDto { id: t.id, name: t.name, content: t.content }
    }
}

impl From<TemplateDto> for Template {
    fn from(dto: TemplateDto) -> (template: Template)
        ensures
            template@ == dto@,
    {
        Template { id: dto.id, name: dto.name, content: dto.content }
    }
}

impl FromSpecImpl<TemplateDto> for Template {
    open spec fn obeys_from_spec() -> bool {
        true
    }

    open spec fn from_spec(dto: TemplateDto) -> Template {
        Template { id: dto.id, name: dto.name, content: dto.content }
    }
}

impl From<ScratchLink> for ScratchLinkDto {
    fn from(s: ScratchLink) -> (dto: ScratchLinkDto)
        ensures
            dto@ == link_to_dto(s@),
    {
        ScratchLinkDto {
            scratch_id: s.scratch_id,
            mode: tag_of_mode(s.mode),
            insertion: InsertionFlagsDto::from(s.insertion),
        }
    }
}

impl FromSpecImpl<ScratchLink> for ScratchLinkDto {
    open spec fn obeys_from_spec() -> bool {
        false
    }

    open spec fn from_spec(s: ScratchLink) -> ScratchLinkDto {
        arbitrary()
    }
}

impl From<ScratchLinkDto> for ScratchLink {
    fn from(dto: ScratchLinkDto) -> (link: ScratchLink)
        ensures
            link@ == link_from_dto(dto@),
    {
        let mode = mode_from_tag(&dto.mode);
        ScratchLink {
            scratch_id: dto.scratch_id,
            mode,
            insertion: InsertionFlags::from(dto.insertion),
        }
    }
}

impl FromSpecImpl<ScratchLinkDto> for ScratchLink {
    open spec fn obeys_from_spec() -> bool {
        true
    }

    open spec fn from_spec(dto: ScratchLinkDto) -> ScratchLink {
        ScratchLink {
            scratch_id: dto.scratch_id,
            mode: mode_of_tag(dto.mode@),
            insertion: flags_from_dto(dto.insertion),
        }
    }
}

impl From<OutlineNode> for OutlineNodeDto {
    fn from(o: OutlineNode) -> (dto: OutlineNodeDto)
        ensures
            dto@ == node_to_dto(o@),
    {
        node_dto_of(&o)
    }
}

impl FromSpecImpl<OutlineNode> for OutlineNodeDto {
    open spec fn obeys_from_spec() -> bool {
        false
    }

    open spec fn from_spec(o: OutlineNode) -> OutlineNodeDto {
        arbitrary()
    }
}

impl TryFrom<OutlineNodeDto> for OutlineNode {
    type Error = String;

    fn try_from(dto: OutlineNodeDto) -> (res: Result<OutlineNode, String>)
        ensures
            res matches Ok(node) && node@ == node_from_dto(dto@),
    {
        Ok(node_of_dto(&dto))
    }
}

impl TryFromSpecImpl<OutlineNodeDto> for OutlineNode {
    open spec fn obeys_try_from_spec() -> bool {
        false
    }

    open spec fn try_from_spec(dto: OutlineNodeDto) -> Result<OutlineNode, String> {
        arbitrary()
    }
}

impl From<Scratch> for ScratchDto {
    fn from(s: Scratch) -> (dto: ScratchDto)
        ensures
            dto@ == scratch_to_dto(s@),
    {
        let created_at = s.created_at.to_rfc3339();
        let modified_at = s.modified_at.to_rfc3339();
        ScratchDto {
            id: s.id,
            title: s.title,
            content: s.content,
            created_at,
            modified_at,
            tags: s.tags,
            source: s.source,
        }
    }
}

impl FromSpecImpl<Scratch> for ScratchDto {
    open spec fn obeys_from_spec() -> bool {
        false
    }

    open spec fn from_spec(s: Scratch) -> ScratchDto {
        arbitrary()
    }
}

impl TryFrom<ScratchDto> for Scratch {
    type Error = String;

    fn try_from(dto: ScratchDto) -> (res: Result<Scratch, String>)
        ensures
            match res {
                Ok(scratch) => scratch_from_dto(dto@) == Ok::<ScratchView, Seq<char>>(scratch@),
                Err(message) => scratch_from_dto(dto@) == Err::<ScratchView, Seq<char>>(message@),
            },
    {
        let created_at = match Timestamp::parse_from_rfc3339(dto.created_at.as_str()) {
            Ok(t) => t,
            Err(message) => {
                return Err(message);
            },
        };
        let modified_at = match Timestamp::parse_from_rfc3339(dto.modified_at.as_str()) {
            Ok(t) => t,
            Err(message) => {
                return Err(message);
            },
        };
        Ok(
            Scratch {
                id: dto.id,
                title: dto.title,
                content: dto.content,
                created_at,
                modified_at,
                tags: dto.tags,
                source: dto.source,
            },
        )
    }
}

impl TryFromSpecImpl<ScratchDto> for Scratch {
    open spec fn obeys_try_from_spec() -> bool {
        false
    }

    open spec fn try_from_spec(dto: ScratchDto) -> Result<Scratch, String> {
        arbitrary()
    }
}

impl From<Project> for ProjectDto {
    fn from(p: Project) -> (dto: ProjectDto)
        ensures
            dto@ == project_to_dto(p@),
    {
        let created_at = p.created_at.to_rfc3339();
        let modified_at = p.modified_at.to_rfc3339();
        ProjectDto {
            id: p.id,
            title: p.title,
            outline: OutlineNodeDto::from(p.outline),
            settings: ProjectSettingsDto::from(p.settings),
            created_at,
            modified_at,
        }
    }
}

impl FromSpecImpl<Project> for ProjectDto {
    open spec fn obeys_from_spec() -> bool {
        false
    }

    open spec fn from_spec(p: Project) -> ProjectDto {
        arbitrary()
    }
}

impl TryFrom<ProjectDto> for Project {
    type Error = String;

    fn try_from(dto: ProjectDto) -> (res: Result<Project, String>)
        ensures
            match res {
                Ok(project) => project_from_dto(dto@) == Ok::<ProjectView, Seq<char>>(project@),
                Err(message) => project_from_dto(dto@) == Err::<ProjectView, Seq<char>>(message@),
            },
    {
        let created_at = match Timestamp::parse_from_rfc3339(dto.created_at.as_str()) {
            Ok(t) => t,
            Err(message) => {
                return Err(message);
            },
        };
        let modified_at = match Timestamp::parse_from_rfc3339(dto.modified_at.as_str()) {
            Ok(t) => t,
            Err(message) => {
                return Err(message);
            },
        };
        let outline = node_of_dto(&dto.outline);
        let settings = ProjectSettings::from(dto.settings);
        Ok(
            Project {
                id: dto.id,
                title: dto.title,
                outline,
                settings,
                created_at,
                modified_at,
            },
        )
    }
}

impl TryFromSpecImpl<ProjectDto> for Project {
    open spec fn obeys_try_from_spec() -> bool {
        false
    }

    open spec fn try_from_spec(dto: ProjectDto) -> Result<Project, String> {
        arbitrary()
    }
}

/// Whether `tag` is one of the two tags under which a mode travels.
pub open spec fn is_mode_tag(tag: Seq<char>) -> bool {
    tag == "Include"@ || tag == "Link"@
}

/// Whether every link in the subtree carries a recognized mode tag.
pub open spec fn well_tagged(dto: OutlineNodeDtoView) -> bool
    decreases dto,
{
    &&& forall|i: int| 0 <= i < dto.scratches.len() ==> is_mode_tag(#[trigger] dto.scratches[i].mode)
    &&& forall|i: int|
        0 <= i < dto.children.len() ==> well_tagged(#[trigger] dto.children[i])
}

/// The two mode tags are different texts.
pub proof fn lemma_tags_differ()
    ensures
        "Include"@ != "Link"@,
{
    reveal_strlit("Include");
    reveal_strlit("Link");
    assert("Include"@.len() == 7);
    assert("Link"@.len() == 4);
}

/// A mode survives the trip through its tag.
pub proof fn lemma_mode_round_trip(mode: IntegrationMode)
    ensures
        mode_of_tag(mode_tag(mode)) == mode,
        is_mode_tag(mode_tag(mode)),
{
    lemma_tags_differ();
}

/// A recognized tag survives the trip through its mode; any other tag comes
/// back as `"Include"`.
pub proof fn lemma_tag_round_trip(tag: Seq<char>)
    ensures
        is_mode_tag(tag) ==> mode_tag(mode_of_tag(tag)) == tag,
        !is_mode_tag(tag) ==> mode_tag(mode_of_tag(tag)) == "Include"@,
{
    lemma_tags_differ();
}

/// A link converted to its mirror and back is the link it was.
pub proof fn lemma_link_round_trip(link: ScratchLinkView)
    ensures
        link_from_dto(link_to_dto(link)) == link,
{
    lemma_mode_round_trip(link.mode);
}

/// A link mirror read and converted back is the mirror it was, except that a
/// mode tag which is not recognized has become `"Include"`.
pub proof fn lemma_link_mirror_round_trip(dto: ScratchLinkDtoView)
    ensures
        link_to_dto(link_from_dto(dto)) == (ScratchLinkDtoView {
            mode: if is_mode_tag(dto.mode) {
                dto.mode
            } else {
                "Include"@
            },
            ..dto
        }),
{
    lemma_tag_round_trip(dto.mode);
}

/// Tree fidelity: an outline converted to its mirror and back is the tree it
/// was, to any depth: ids, titles, content, the order of children and links,
/// modes and flags.
pub proof fn lemma_outline_round_trip(node: OutlineNodeView)
    ensures
        node_from_dto(node_to_dto(node)) == node,
    decreases node,
{
    let back = node_from_dto(node_to_dto(node));
    assert forall|i: int| 0 <= i < node.children.len() implies back.children[i]
        == node.children[i] by {
        lemma_outline_round_trip(node.children[i]);
    }
    assert(back.children =~= node.children);
    assert forall|i: int| 0 <= i < node.scratches.len() implies back.scratches[i]
        == node.scratches[i] by {
        lemma_link_round_trip(node.scratches[i]);
    }
    assert(back.scratches =~= node.scratches);
}

/// An outline mirror whose mode tags are all recognized, read and converted
/// back, is the mirror it was.
pub proof fn lemma_outline_mirror_round_trip(dto: OutlineNodeDtoView)
    requires
        well_tagged(dto),
    ensures
        node_to_dto(node_from_dto(dto)) == dto,
    decreases dto,
{
    let back = node_to_dto(node_from_dto(dto));
    assert forall|i: int| 0 <= i < dto.children.len() implies back.children[i]
        == dto.children[i] by {
        assert(well_tagged(dto.children[i]));
        lemma_outline_mirror_round_trip(dto.children[i]);
    }
    assert(back.children =~= dto.children);
    assert forall|i: int| 0 <= i < dto.scratches.len() implies back.scratches[i]
        == dto.scratches[i] by {
        assert(is_mode_tag(dto.scratches[i].mode));
        lemma_link_mirror_round_trip(dto.scratches[i]);
    }
    assert(back.scratches =~= dto.scratches);
}

/// The mirror of any outline carries recognized mode tags only.
pub proof fn lemma_mirror_is_well_tagged(node: OutlineNodeView)
    ensures
        well_tagged(node_to_dto(node)),
    decreases node,
{
    let dto = node_to_dto(node);
    assert forall|i: int| 0 <= i < dto.scratches.len() implies is_mode_tag(
        #[trigger] dto.scratches[i].mode,
    ) by {
        lemma_mode_round_trip(node.scratches[i].mode);
    }
    assert forall|i: int| 0 <= i < dto.children.len() implies well_tagged(
        #[trigger] dto.children[i],
    ) by {
        lemma_mirror_is_well_tagged(node.children[i]);
    }
}

} // verus!
