//! The entity model: scratches, templates, and projects with their outlines.

use crate::time::{Instant, Timestamp};
use vstd::prelude::*;
use vstd::string::*;

verus! {

/// How a linked scratch takes part in an outline node.
#[derive(Debug, Clone, Copy, PartialEq, Eq)]
pub enum IntegrationMode {
    /// The scratch's content is materialized inline.
    Include,
    /// Only a reference to the scratch is kept.
    Link,
}

/// Where a linked scratch is inserted. The four flags are independent.
#[derive(Debug, Clone, Copy, PartialEq, Eq)]
pub struct InsertionFlags {
    pub body: bool,
    pub footnote: bool,
    pub reference: bool,
    pub appendix: bool,
}

/// A free-form note.
#[derive(Debug, Clone, PartialEq, Eq)]
pub struct Scratch {
    pub id: String,
    pub title: String,
    pub content: String,
    pub created_at: Timestamp,
    pub modified_at: Timestamp,
    pub tags: Vec<String>,
    pub source: Option<String>,
}

/// A reusable template.
#[derive(Debug, Clone, PartialEq, Eq)]
pub struct Template {
    pub id: String,
    pub name: String,
    pub content: String,
}

/// The settings of a project: the template it refers to and where it is
/// written out.
#[derive(Debug, Clone, PartialEq, Eq)]
pub struct ProjectSettings {
    pub template_id: String,
    pub output_dir: String,
}

/// A reference from an outline node to a scratch.
#[derive(Debug, Clone, PartialEq, Eq)]
pub struct ScratchLink {
    pub scratch_id: String,
    pub mode: IntegrationMode,
    pub insertion: InsertionFlags,
}

/// One section of a project's outline. A node owns its children.
#[derive(Debug, PartialEq, Eq)]
pub struct OutlineNode {
    pub id: String,
    pub title: String,
    pub content: Option<String>,
    pub children: Vec<OutlineNode>,
    pub scratches: Vec<ScratchLink>,
}

/// A writing project: an outline tree with settings.
#[derive(Debug, Clone, PartialEq, Eq)]
pub struct Project {
    pub id: String,
    pub title: String,
    pub outline: OutlineNode,
    pub settings: ProjectSettings,
    pub created_at: Timestamp,
    pub modified_at: Timestamp,
}

/// The mathematical content of a [`Scratch`].
#[verifier::ext_equal]
pub struct ScratchView {
    pub id: Seq<char>,
    pub title: Seq<char>,
    pub content: Seq<char>,
    pub created_at: Instant,
    pub modified_at: Instant,
    pub tags: Seq<Seq<char>>,
    pub source: Option<Seq<char>>,
}

/// The mathematical content of a [`Template`] and of its transfer mirror.
#[verifier::ext_equal]
pub struct TemplateView {
    pub id: Seq<char>,
    pub name: Seq<char>,
    pub content: Seq<char>,
}

/// The mathematical content of [`ProjectSettings`] and of its transfer mirror.
#[verifier::ext_equal]
pub struct ProjectSettingsView {
    pub template_id: Seq<char>,
    pub output_dir: Seq<char>,
}

/// The mathematical content of a [`ScratchLink`].
#[verifier::ext_equal]
pub struct ScratchLinkView {
    pub scratch_id: Seq<char>,
    pub mode: IntegrationMode,
    pub insertion: InsertionFlags,
}

/// The mathematical content of an [`OutlineNode`]: the whole subtree.
#[verifier::ext_equal]
pub struct OutlineNodeView {
    pub id: Seq<char>,
    pub title: Seq<char>,
    pub content: Option<Seq<char>>,
    pub children: Seq<OutlineNodeView>,
    pub scratches: Seq<ScratchLinkView>,
}

/// The mathematical content of a [`Project`].
#[verifier::ext_equal]
pub struct ProjectView {
    pub id: Seq<char>,
    pub title: Seq<char>,
    pub outline: OutlineNodeView,
    pub settings: ProjectSettingsView,
    pub created_at: Instant,
    pub modified_at: Instant,
}

impl View for Scratch {
    type V = ScratchView;

    open spec fn view(&self) -> ScratchView {
        ScratchView {
            id: self.id@,
            title: self.title@,
            content: self.content@,
            created_at: self.created_at@,
            modified_at: self.modified_at@,
            tags: self.tags.deep_view(),
            source: self.source.deep_view(),
        }
    }
}

impl View for Template {
    type V = TemplateView;

    open spec fn view(&self) -> TemplateView {
        TemplateView { id: self.id@, name: self.name@, content: self.content@ }
    }
}

impl View for ProjectSettings {
    type V = ProjectSettingsView;

    open spec fn view(&self) -> ProjectSettingsView {
        ProjectSettingsView { template_id: self.template_id@, output_dir: self.output_dir@ }
    }
}

impl View for ScratchLink {
    type V = ScratchLinkView;

    open spec fn view(&self) -> ScratchLinkView {
        ScratchLinkView { scratch_id: self.scratch_id@, mode: self.mode, insertion: self.insertion }
    }
}

/// The contents of a list of links, in order.
pub open spec fn links_view(links: Seq<ScratchLink>) -> Seq<ScratchLinkView> {
    links.map_values(|l: ScratchLink| l@)
}

impl OutlineNode {
    /// The subtree rooted at this node, children and links in order.
    pub open spec fn tree(self) -> OutlineNodeView
        decreases self,
    {
        OutlineNodeView {
            id: self.id@,
            title: self.title@,
            content: self.content.deep_view(),
            children: Seq::new(
                self.children@.len(),
                |i: int|
                    if 0 <= i < self.children@.len() {
                        self.children@[i].tree()
                    } else {
                        arbitrary()
                    },
            ),
            scratches: links_view(self.scratches@),
        }
    }

    /// The node with which every new project starts: titled "Root", without
    /// content, children or links.
    pub fn root(id: String) -> (node: OutlineNode)
        ensures
            node@ == OutlineNodeView::root(id@),
    {
        let node = OutlineNode {
            id,
            title: String::from_str("Root"),
            content: None,
            children: Vec::new(),
            scratches: Vec::new(),
        };
        assert(node@.children =~= Seq::<OutlineNodeView>::empty());
        assert(node@.scratches =~= Seq::<ScratchLinkView>::empty());
        node
    }
}

/// A copy of the links in `links`, in order.
fn copy_links(links: &Vec<ScratchLink>) -> (res: Vec<ScratchLink>)
    ensures
        links_view(res@) == links_view(links@),
{
    let mut res: Vec<ScratchLink> = Vec::new();
    let mut i: usize = 0;
    while i < links.len()
        invariant
            i <= links.len(),
            res.len() == i,
            forall|j: int| 0 <= j < i ==> res[j]@ == links[j]@,
        decreases links.len() - i,
    {
        let link = &links[i];
        res.push(
            ScratchLink {
                scratch_id: link.scratch_id.clone(),
                mode: link.mode,
                insertion: link.insertion,
            },
        );
        i = i + 1;
    }
    assert(links_view(res@) =~= links_view(links@));
    res
}

/// A copy of the subtree rooted at `node`.
fn copy_node(node: &OutlineNode) -> (res: OutlineNode)
    ensures
        res@ == node@,
    decreases node,
{
    let mut children: Vec<OutlineNode> = Vec::new();
    let mut i: usize = 0;
    while i < node.children.len()
        invariant
            i <= node.children.len(),
            children.len() == i,
            forall|j: int| 0 <= j < i ==> children[j]@ == node.children[j]@,
        decreases node.children.len() - i,
    {
        let child = copy_node(&node.children[i]);
        children.push(child);
        i = i + 1;
    }
    let res = OutlineNode {
        id: node.id.clone(),
        title: node.title.clone(),
        content: node.content.clone(),
        children,
        scratches: copy_links(&node.scratches),
    };
    assert(res@.children =~= node@.children);
    res
}

impl Clone for OutlineNode {
    fn clone(&self) -> (res: OutlineNode)
        ensures
            res@ == self@,
    {
        copy_node(self)
    }
}

impl View for OutlineNode {
    type V = OutlineNodeView;

    open spec fn view(&self) -> OutlineNodeView {
        self.tree()
    }
}

impl OutlineNodeView {
    /// The implicit root of a new project's outline.
    pub open spec fn root(id: Seq<char>) -> OutlineNodeView {
        OutlineNodeView {
            id,
            title: "Root"@,
            content: None,
            children: Seq::empty(),
            scratches: Seq::empty(),
        }
    }
}

impl View for Project {
    type V = ProjectView;

    open spec fn view(&self) -> ProjectView {
        ProjectView {
            id: self.id@,
            title: self.title@,
            outline: self.outline@,
            settings: self.settings@,
            created_at: self.created_at@,
            modified_at: self.modified_at@,
        }
    }
}

} // verus!
