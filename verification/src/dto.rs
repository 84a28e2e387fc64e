//! The transfer model: flat mirrors of the entities for the caller boundary,
//! with timestamps as RFC 3339 text and the integration mode as a tag.
//!
//! The conversions between the two models are in [`crate::convert`].

use crate::model::{ProjectSettingsView, TemplateView};
use vstd::prelude::*;

verus! {

/// Transfer mirror of a [`Scratch`].
#[derive(Debug, Clone, PartialEq, Eq)]
pub struct ScratchDto {
    pub id: String,
    pub title: String,
    pub content: String,
    pub created_at: String,
    pub modified_at: String,
    pub tags: Vec<String>,
    pub source: Option<String>,
}

/// Transfer mirror of a [`Project`].
#[derive(Debug, Clone, PartialEq, Eq)]
pub struct ProjectDto {
    pub id: String,
    pub title: String,
    pub outline: OutlineNodeDto,
    pub settings: ProjectSettingsDto,
    pub created_at: String,
    pub modified_at: String,
}

/// Transfer mirror of an [`OutlineNode`].
#[derive(Debug, PartialEq, Eq)]
pub struct OutlineNodeDto {
    pub id: String,
    pub title: String,
    pub content: Option<String>,
    pub children: Vec<OutlineNodeDto>,
    pub scratches: Vec<ScratchLinkDto>,
}

/// Transfer mirror of a [`ScratchLink`]; `mode` is `"Include"` or `"Link"`.
#[derive(Debug, Clone, PartialEq, Eq)]
pub struct ScratchLinkDto {
    pub scratch_id: String,
    pub mode: String,
    pub insertion: InsertionFlagsDto,
}

/// Transfer mirror of [`InsertionFlags`].
#[derive(Debug, Clone, Copy, PartialEq, Eq)]
pub struct InsertionFlagsDto {
    pub body: bool,
    pub footnote: bool,
    pub reference: bool,
    pub appendix: bool,
}

/// Transfer mirror of a [`Template`].
#[derive(Debug, Clone, PartialEq, Eq)]
pub struct TemplateDto {
    pub id: String,
    pub name: String,
    pub content: String,
}

/// Transfer mirror of [`ProjectSettings`].
#[derive(Debug, Clone, PartialEq, Eq)]
pub struct ProjectSettingsDto {
    pub template_id: String,
    pub output_dir: String,
}

/// The mathematical content of a [`ScratchDto`].
#[verifier::ext_equal]
pub struct ScratchDtoView {
    pub id: Seq<char>,
    pub title: Seq<char>,
    pub content: Seq<char>,
    pub created_at: Seq<char>,
    pub modified_at: Seq<char>,
    pub tags: Seq<Seq<char>>,
    pub source: Option<Seq<char>>,
}

/// The mathematical content of a [`ScratchLinkDto`].
#[verifier::ext_equal]
pub struct ScratchLinkDtoView {
    pub scratch_id: Seq<char>,
    pub mode: Seq<char>,
    pub insertion: InsertionFlagsDto,
}

/// The mathematical content of an [`OutlineNodeDto`]: the whole subtree.
#[verifier::ext_equal]
pub struct OutlineNodeDtoView {
    pub id: Seq<char>,
    pub title: Seq<char>,
    pub content: Option<Seq<char>>,
    pub children: Seq<OutlineNodeDtoView>,
    pub scratches: Seq<ScratchLinkDtoView>,
}

/// The mathematical content of a [`ProjectDto`].
#[verifier::ext_equal]
pub struct ProjectDtoView {
    pub id: Seq<char>,
    pub title: Seq<char>,
    pub outline: OutlineNodeDtoView,
    pub settings: ProjectSettingsView,
    pub created_at: Seq<char>,
    pub modified_at: Seq<char>,
}

impl View for ScratchDto {
    type V = ScratchDtoView;

    open spec fn view(&self) -> ScratchDtoView {
        ScratchDtoView {
            id: self.id@,
            title: self.title@,
            content: self.content@,
            created_at: self.created_at@,
            modified_at: self.modified_at@,
            tags: self.tags.deep_view(),
            source: self.source.deep_view(),
        }
    }
}

impl View for TemplateDto {
    type V = TemplateView;

    open spec fn view(&self) -> TemplateView {
        TemplateView { id: self.id@, name: self.name@, content: self.content@ }
    }
}

impl View for ProjectSettingsDto {
    type V = ProjectSettingsView;

    open spec fn view(&self) -> ProjectSettingsView {
        ProjectSettingsView { template_id: self.template_id@, output_dir: self.output_dir@ }
    }
}

impl View for ScratchLinkDto {
    type V = ScratchLinkDtoView;

    open spec fn view(&self) -> ScratchLinkDtoView {
        ScratchLinkDtoView {
            scratch_id: self.scratch_id@,
            mode: self.mode@,
            insertion: self.insertion,
        }
    }
}

/// The contents of a list of link mirrors, in order.
pub open spec fn link_dtos_view(links: Seq<ScratchLinkDto>) -> Seq<ScratchLinkDtoView> {
    links.map_values(|l: ScratchLinkDto| l@)
}

impl OutlineNodeDto {
    /// The subtree rooted at this node, children and links in order.
    pub open spec fn tree(self) -> OutlineNodeDtoView
        decreases self,
    {
        OutlineNodeDtoView {
            id: self.id@,
            title: self.title@,
            content: self.content.deep_view(),
            children: Seq::new(
                self.children@.len(),
                |i: int|
                    if 0 <= i < self.children@.len() {
                        self.children@[i].tree()
                    } else {
                        arbitrary()
                    },
            ),
            scratches: link_dtos_view(self.scratches@),
        }
    }
}

impl View for OutlineNodeDto {
    type V = OutlineNodeDtoView;

    open spec fn view(&self) -> OutlineNodeDtoView {
        self.tree()
    }
}

impl View for ProjectDto {
    type V = ProjectDtoView;

    open spec fn view(&self) -> ProjectDtoView {
        ProjectDtoView {
            id: self.id@,
            title: self.title@,
            outline: self.outline@,
            settings: self.settings@,
            created_at: self.created_at@,
            modified_at: self.modified_at@,
        }
    }
}

/// A copy of the link mirrors in `links`, in order.
fn copy_link_dtos(links: &Vec<ScratchLinkDto>) -> (res: Vec<ScratchLinkDto>)
    ensures
        link_dtos_view(res@) == link_dtos_view(links@),
{
    let mut res: Vec<ScratchLinkDto> = Vec::new();
    let mut i: usize = 0;
    while i < links.len()
        invariant
            i <= links.len(),
            res.len() == i,
            forall|j: int| 0 <= j < i ==> res[j]@ == links[j]@,
        decreases links.len() - i,
    {
        let link = &links[i];
        res.push(
            ScratchLinkDto {
                scratch_id: link.scratch_id.clone(),
                mode: link.mode.clone(),
                insertion: link.insertion,
            },
        );
        i = i + 1;
    }
    assert(link_dtos_view(res@) =~= link_dtos_view(links@));
    res
}

/// A copy of the subtree rooted at `node`.
fn copy_node_dto(node: &OutlineNodeDto) -> (res: OutlineNodeDto)
    ensures
        res@ == node@,
    decreases node,
{
    let mut children: Vec<OutlineNodeDto> = Vec::new();
    let mut i: usize = 0;
    while i < node.children.len()
        invariant
            i <= node.children.len(),
            children.len() == i,
            forall|j: int| 0 <= j < i ==> children[j]@ == node.children[j]@,
        decreases node.children.len() - i,
    {
        let child = copy_node_dto(&node.children[i]);
        children.push(child);
        i = i + 1;
    }
    let res = OutlineNodeDto {
        id: node.id.clone(),
        title: node.title.clone(),
        content: node.content.clone(),
        children,
        scratches: copy_link_dtos(&node.scratches),
    };
    assert(res@.children =~= node@.children);
    res
}

impl Clone for OutlineNodeDto {
    fn clone(&self) -> (res: OutlineNodeDto)
        ensures
            res@ == self@,
    {
        copy_node_dto(self)
    }
}

} // verus!
