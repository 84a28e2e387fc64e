use std::cell::RefCell;
use std::collections::{BTreeMap, BTreeSet};
use std::rc::Rc;
use std::sync::Arc;

use serde_json::Value;

use tarsius::disk::FileOp;
use tarsius::error::CoreError;
use tarsius::model::{OutlineNode, Project, ProjectSettings, Scratch, Template};
use tarsius::storage::{
    is_entity_file, write_atomic, Entry, Fetched, FilesystemProjectRepository,
    FilesystemScratchRepository, FilesystemTemplateRepository,
};
use tarsius::time::Timestamp;
use tarsius::workspace::Workspace;

// A file system in memory, and the part of a repository that touches it: it
// performs the plans and reports what it finds, as a caller of the library
// does on a real disk.

struct Disk {
    files: BTreeMap<String, String>,
    dirs: BTreeSet<String>,
}

type SharedDisk = Rc<RefCell<Disk>>;

fn parent(path: &str) -> Option<String> {
    path.rfind('/').map(|i| path[..i].to_string())
}

fn below(dir: &str, path: &str) -> bool {
    path.len() > dir.len() + 1 && path.starts_with(dir) && path.as_bytes()[dir.len()] == b'/'
}

impl Disk {
    fn new(root: &str) -> SharedDisk {
        let mut disk = Disk { files: BTreeMap::new(), dirs: BTreeSet::new() };
        disk.create_dir_all(root);
        Rc::new(RefCell::new(disk))
    }

    fn create_dir_all(&mut self, path: &str) {
        let mut dir = Some(path.to_string());
        while let Some(d) = dir {
            if d.is_empty() {
                break;
            }
            dir = parent(&d);
            self.dirs.insert(d);
        }
    }

    fn has(&self, path: &str) -> bool {
        self.files.contains_key(path) || self.dirs.contains(path)
    }

    fn read(&self, path: &str) -> Result<String, String> {
        self.files.get(path).cloned().ok_or(format!("{}: no such file", path))
    }

    // The entries directly in `dir`: the path of each, and whether it is a
    // directory.
    fn read_dir(&self, dir: &str) -> Result<Vec<(String, bool)>, String> {
        if !self.dirs.contains(dir) {
            return Err(format!("{}: no such directory", dir));
        }
        let direct = |p: &&String| parent(p).as_deref() == Some(dir);
        let mut entries: Vec<(String, bool)> =
            self.files.keys().filter(direct).map(|p| (p.clone(), false)).collect();
        entries.extend(self.dirs.iter().filter(direct).map(|p| (p.clone(), true)));
        Ok(entries)
    }

    fn perform(&mut self, op: &FileOp) -> Result<(), String> {
        match op {
            FileOp::CreateDirAll { path } => {
                self.create_dir_all(path);
                Ok(())
            },
            FileOp::Write { path, content } => match parent(path) {
                Some(dir) if !self.dirs.contains(&dir) => Err(format!("{}: no such directory", dir)),
                _ => {
                    self.files.insert(path.clone(), content.clone());
                    Ok(())
                },
            },
            FileOp::Rename { from, to } => match self.files.remove(from) {
                None => Err(format!("{}: no such file", from)),
                Some(content) => {
                    self.files.insert(to.clone(), content);
                    Ok(())
                },
            },
            FileOp::RemoveFile { path } => match self.files.remove(path) {
                None => Err(format!("{}: no such file", path)),
                Some(_) => Ok(()),
            },
            FileOp::RemoveDirAll { path } => {
                if !self.dirs.remove(path) {
                    return Err(format!("{}: no such directory", path));
                }
                self.files.retain(|p, _| !below(path, p));
                self.dirs.retain(|d| !below(path, d));
                Ok(())
            },
        }
    }
}

fn run(disk: &SharedDisk, ops: &[FileOp]) -> Result<(), CoreError> {
    for op in ops {
        disk.borrow_mut().perform(op).map_err(CoreError::storage)?;
    }
    Ok(())
}

fn object() -> Value {
    Value::Object(Default::default())
}

fn text(value: &Value, key: &str) -> Result<String, String> {
    match value.get(key) {
        Some(Value::String(s)) => Ok(s.clone()),
        _ => Err(format!("missing field `{}`", key)),
    }
}

fn time(value: &Value, key: &str) -> Result<Timestamp, String> {
    Timestamp::parse_from_rfc3339(&text(value, key)?)
}

fn scratch_to_json(scratch: &Scratch) -> String {
    let mut map = object();
    map["id"] = Value::String(scratch.id.clone());
    map["title"] = Value::String(scratch.title.clone());
    map["content"] = Value::String(scratch.content.clone());
    map["created_at"] = Value::String(scratch.created_at.to_rfc3339());
    map["modified_at"] = Value::String(scratch.modified_at.to_rfc3339());
    map["tags"] = Value::Array(scratch.tags.iter().map(|t| Value::String(t.clone())).collect());
    map["source"] = match &scratch.source {
        Some(s) => Value::String(s.clone()),
        None => Value::Null,
    };
    serde_json::to_string_pretty(&map).unwrap()
}

fn scratch_from_json(json: &str) -> Result<Scratch, String> {
    let value: Value = serde_json::from_str(json).map_err(|e| e.to_string())?;
    let tags = match value.get("tags") {
        Some(Value::Array(items)) => items
            .iter()
            .map(|t| t.as_str().map(|s| s.to_string()).ok_or("bad tag".to_string()))
            .collect::<Result<Vec<String>, String>>()?,
        _ => return Err("missing field `tags`".to_string()),
    };
    let source = match value.get("source") {
        Some(Value::String(s)) => Some(s.clone()),
        _ => None,
    };
    Ok(Scratch {
        id: text(&value, "id")?,
        title: text(&value, "title")?,
        content: text(&value, "content")?,
        created_at: time(&value, "created_at")?,
        modified_at: time(&value, "modified_at")?,
        tags,
        source,
    })
}

fn project_to_json(project: &Project) -> String {
    let mut outline = object();
    outline["id"] = Value::String(project.outline.id.clone());
    outline["title"] = Value::String(project.outline.title.clone());
    outline["content"] = Value::Null;
    outline["children"] = Value::Array(vec![]);
    outline["scratches"] = Value::Array(vec![]);
    let mut settings = object();
    settings["template_id"] = Value::String(project.settings.template_id.clone());
    settings["output_dir"] = Value::String(project.settings.output_dir.clone());
    let mut map = object();
    map["id"] = Value::String(project.id.clone());
    map["title"] = Value::String(project.title.clone());
    map["outline"] = outline;
    map["settings"] = settings;
    map["created_at"] = Value::String(project.created_at.to_rfc3339());
    map["modified_at"] = Value::String(project.modified_at.to_rfc3339());
    serde_json::to_string_pretty(&map).unwrap()
}

fn project_from_json(json: &str) -> Result<Project, String> {
    let value: Value = serde_json::from_str(json).map_err(|e| e.to_string())?;
    let outline = value.get("outline").ok_or("missing field `outline`".to_string())?;
    let settings = value.get("settings").ok_or("missing field `settings`".to_string())?;
    Ok(Project {
        id: text(&value, "id")?,
        title: text(&value, "title")?,
        outline: OutlineNode {
            id: text(outline, "id")?,
            title: text(outline, "title")?,
            content: None,
            children: vec![],
            scratches: vec![],
        },
        settings: ProjectSettings {
            template_id: text(settings, "template_id")?,
            output_dir: text(settings, "output_dir")?,
        },
        created_at: time(&value, "created_at")?,
        modified_at: time(&value, "modified_at")?,
    })
}

fn template_to_json(template: &Template) -> String {
    let mut map = object();
    map["id"] = Value::String(template.id.clone());
    map["name"] = Value::String(template.name.clone());
    map["content"] = Value::String(template.content.clone());
    serde_json::to_string_pretty(&map).unwrap()
}

fn template_from_json(json: &str) -> Result<Template, String> {
    let value: Value = serde_json::from_str(json).map_err(|e| e.to_string())?;
    Ok(Template {
        id: text(&value, "id")?,
        name: text(&value, "name")?,
        content: text(&value, "content")?,
    })
}

fn fetch<T>(disk: &SharedDisk, path: &str, decode: fn(&str) -> Result<T, String>) -> Fetched<T> {
    let disk = disk.borrow();
    if !disk.has(path) {
        return Fetched::Missing;
    }
    match disk.read(path).and_then(|content| decode(&content)) {
        Err(message) => Fetched::Failed(message),
        Ok(entity) => Fetched::Found(entity),
    }
}

fn file_entries<T>(
    disk: &SharedDisk,
    dir: &str,
    decode: fn(&str) -> Result<T, String>,
) -> Result<Vec<Entry<T>>, CoreError> {
    let disk = disk.borrow();
    let mut entries = Vec::new();
    for (path, _) in disk.read_dir(dir).map_err(CoreError::storage)? {
        entries.push(if is_entity_file(&path) {
            Entry::from_read(disk.read(&path).and_then(|content| decode(&content)))
        } else {
            Entry::Foreign
        });
    }
    Ok(entries)
}

struct Scratches {
    disk: SharedDisk,
    repo: FilesystemScratchRepository,
    dir: String,
}

impl Scratches {
    fn new(disk: &SharedDisk, workspace: Arc<Workspace>) -> Self {
        let dir = workspace.scratches_dir();
        Scratches { disk: disk.clone(), repo: FilesystemScratchRepository::new(workspace), dir }
    }

    fn save(&self, scratch: &Scratch) -> Result<(), CoreError> {
        run(&self.disk, &self.repo.save(scratch, scratch_to_json(scratch))?)
    }

    fn load(&self, id: &str) -> Result<Scratch, CoreError> {
        let fetched = match self.repo.scratch_path(id) {
            Some(path) => fetch(&self.disk, &path, scratch_from_json),
            None => Fetched::Missing,
        };
        self.repo.load(id, fetched)
    }

    fn list(&self) -> Result<Vec<Scratch>, CoreError> {
        self.repo.list(file_entries(&self.disk, &self.dir, scratch_from_json)?)
    }

    fn delete(&self, id: &str) -> Result<(), CoreError> {
        let present = self.repo.scratch_path(id).map_or(false, |p| self.disk.borrow().has(&p));
        run(&self.disk, &self.repo.delete(id, present))
    }
}

struct Templates {
    disk: SharedDisk,
    repo: FilesystemTemplateRepository,
    dir: String,
}

impl Templates {
    fn new(disk: &SharedDisk, workspace: Arc<Workspace>) -> Self {
        let dir = workspace.templates_dir();
        Templates { disk: disk.clone(), repo: FilesystemTemplateRepository::new(workspace), dir }
    }

    fn save(&self, template: &Template) -> Result<(), CoreError> {
        run(&self.disk, &self.repo.save(template, template_to_json(template))?)
    }

    fn load(&self, id: &str) -> Result<Template, CoreError> {
        let fetched = match self.repo.template_path(id) {
            Some(path) => fetch(&self.disk, &path, template_from_json),
            None => Fetched::Missing,
        };
        self.repo.load(id, fetched)
    }

    fn list(&self) -> Result<Vec<Template>, CoreError> {
        self.repo.list(file_entries(&self.disk, &self.dir, template_from_json)?)
    }

    fn delete(&self, id: &str) -> Result<(), CoreError> {
        let present = self.repo.template_path(id).map_or(false, |p| self.disk.borrow().has(&p));
        run(&self.disk, &self.repo.delete(id, present))
    }
}

struct Projects {
    disk: SharedDisk,
    repo: FilesystemProjectRepository,
    dir: String,
}

impl Projects {
    fn new(disk: &SharedDisk, workspace: Arc<Workspace>) -> Self {
        let dir = workspace.projects_dir();
        Projects { disk: disk.clone(), repo: FilesystemProjectRepository::new(workspace), dir }
    }

    fn save(&self, project: &Project) -> Result<(), CoreError> {
        run(&self.disk, &self.repo.save(project, project_to_json(project))?)
    }

    fn load(&self, id: &str) -> Result<Project, CoreError> {
        let fetched = match self.repo.project_path(id) {
            Some(path) => fetch(&self.disk, &path, project_from_json),
            None => Fetched::Missing,
        };
        self.repo.load(id, fetched)
    }

    fn list(&self) -> Result<Vec<Project>, CoreError> {
        let found = self.disk.borrow().read_dir(&self.dir).map_err(CoreError::storage)?;
        let mut entries = Vec::new();
        for (path, is_dir) in found {
            entries.push(if is_dir {
                let name = path[self.dir.len() + 1..].to_string();
                Entry::Candidate(self.load(&name))
            } else {
                Entry::Foreign
            });
        }
        self.repo.list(entries)
    }

    fn delete(&self, id: &str) -> Result<(), CoreError> {
        let present = self.repo.project_dir(id).map_or(false, |p| self.disk.borrow().has(&p));
        run(&self.disk, &self.repo.delete(id, present))
    }
}

const ROOT: &str = "/tmp/tarsius-test";

fn ready_workspace(disk: &SharedDisk) -> Arc<Workspace> {
    let workspace = Workspace::new(ROOT);
    run(disk, &workspace.ensure_dirs()).unwrap();
    Arc::new(workspace)
}

fn scratch(id: &str) -> Scratch {
    Scratch {
        id: id.to_string(),
        title: format!("Scratch {}", id),
        content: "Some content".to_string(),
        created_at: Timestamp::new(1_700_000_000, 0).unwrap(),
        modified_at: Timestamp::new(1_700_000_500, 250_000_000).unwrap(),
        tags: vec!["x".to_string(), "y".to_string()],
        source: None,
    }
}

fn project(id: &str) -> Project {
    Project {
        id: id.to_string(),
        title: "Test Project".to_string(),
        outline: OutlineNode {
            id: "root".to_string(),
            title: "Root".to_string(),
            content: None,
            children: vec![],
            scratches: vec![],
        },
        settings: ProjectSettings {
            template_id: "template1".to_string(),
            output_dir: "/tmp".to_string(),
        },
        created_at: Timestamp::now(),
        modified_at: Timestamp::now(),
    }
}

#[test]
fn test_filesystem_scratch_repository() {
    let disk = Disk::new(ROOT);
    let workspace = Workspace::new(ROOT);
    run(&disk, &workspace.ensure_dirs()).unwrap();

    let repo = Scratches::new(&disk, Arc::new(workspace));

    // Create a test scratch
    let scratch = Scratch {
        id: "test-scratch".to_string(),
        title: "Test Scratch".to_string(),
        content: "Test content".to_string(),
        created_at: Timestamp::now(),
        modified_at: Timestamp::now(),
        tags: vec!["tag1".to_string()],
        source: Some("source".to_string()),
    };

    // Save
    repo.save(&scratch).unwrap();

    // Load
    let loaded = repo.load("test-scratch").unwrap();
    assert_eq!(loaded.id, scratch.id);
    assert_eq!(loaded.title, scratch.title);
    assert_eq!(loaded.content, scratch.content);

    // List
    let scratches = repo.list().unwrap();
    assert_eq!(scratches.len(), 1);
    assert_eq!(scratches[0].id, scratch.id);

    // Delete
    repo.delete("test-scratch").unwrap();
    let scratches = repo.list().unwrap();
    assert_eq!(scratches.len(), 0);

    // Try to load deleted
    assert!(repo.load("test-scratch").is_err());
}

#[test]
fn test_filesystem_project_repository() {
    let disk = Disk::new(ROOT);
    let workspace = Workspace::new(ROOT);
    run(&disk, &workspace.ensure_dirs()).unwrap();

    let repo = Projects::new(&disk, Arc::new(workspace));

    // Create a test project
    let project = project("test-project");

    // Save
    repo.save(&project).unwrap();

    // Load
    let loaded = repo.load("test-project").unwrap();
    assert_eq!(loaded.id, project.id);
    assert_eq!(loaded.title, project.title);

    // List
    let projects = repo.list().unwrap();
    assert_eq!(projects.len(), 1);
    assert_eq!(projects[0].id, project.id);

    // Delete
    repo.delete("test-project").unwrap();
    let projects = repo.list().unwrap();
    assert_eq!(projects.len(), 0);

    // Try to load deleted
    assert!(repo.load("test-project").is_err());
}

#[test]
fn test_workspace_dirs() {
    let disk = Disk::new(ROOT);
    let workspace = Workspace::new(ROOT);

    // Initially dirs don't exist
    assert!(!disk.borrow().has(&workspace.scratches_dir()));
    assert!(!disk.borrow().has(&workspace.projects_dir()));
    assert!(!disk.borrow().has(&workspace.templates_dir()));

    // Ensure dirs
    run(&disk, &workspace.ensure_dirs()).unwrap();

    // Now they exist
    assert!(disk.borrow().has(&workspace.scratches_dir()));
    assert!(disk.borrow().has(&workspace.projects_dir()));
    assert!(disk.borrow().has(&workspace.templates_dir()));
}

#[test]
fn workspace_layout_is_three_directories_under_the_root() {
    let workspace = Workspace::new("/data/ws");
    assert_eq!(workspace.scratches_dir(), "/data/ws/scratches");
    assert_eq!(workspace.projects_dir(), "/data/ws/projects");
    assert_eq!(workspace.templates_dir(), "/data/ws/templates");
    assert_eq!(
        workspace.ensure_dirs(),
        vec![
            FileOp::CreateDirAll { path: "/data/ws/scratches".to_string() },
            FileOp::CreateDirAll { path: "/data/ws/projects".to_string() },
            FileOp::CreateDirAll { path: "/data/ws/templates".to_string() },
        ]
    );
    assert_eq!(Workspace::new("ws/").scratches_dir(), "ws/scratches");
    assert_eq!(Workspace::new("").templates_dir(), "templates");
}

#[test]
fn ensure_dirs_can_be_repeated() {
    let disk = Disk::new(ROOT);
    let workspace = Workspace::new(ROOT);
    run(&disk, &workspace.ensure_dirs()).unwrap();
    let dirs_after_first = disk.borrow().dirs.clone();
    run(&disk, &workspace.ensure_dirs()).unwrap();
    assert_eq!(disk.borrow().dirs, dirs_after_first);
}

#[test]
fn entity_paths_follow_the_layout() {
    let workspace = Arc::new(Workspace::new("/ws"));
    let scratches = FilesystemScratchRepository::new(workspace.clone());
    let projects = FilesystemProjectRepository::new(workspace.clone());
    let templates = FilesystemTemplateRepository::new(workspace);
    assert_eq!(scratches.scratch_path("abc"), Some("/ws/scratches/abc.json".to_string()));
    assert_eq!(templates.template_path("t-1"), Some("/ws/templates/t-1.json".to_string()));
    assert_eq!(projects.project_dir("p.1"), Some("/ws/projects/p.1".to_string()));
    assert_eq!(projects.project_path("p.1"), Some("/ws/projects/p.1/project.json".to_string()));
    assert_eq!(scratches.scratch_path(".hidden"), Some("/ws/scratches/.hidden.json".to_string()));
}

#[test]
fn save_plans_write_a_sibling_then_rename() {
    let workspace = Arc::new(Workspace::new("/ws"));
    let scratches = FilesystemScratchRepository::new(workspace.clone());
    let projects = FilesystemProjectRepository::new(workspace.clone());
    let templates = FilesystemTemplateRepository::new(workspace);
    assert_eq!(
        scratches.save(&scratch("a.b"), "{}".to_string()),
        Ok(vec![
            FileOp::Write { path: "/ws/scratches/a.b.tmp".to_string(), content: "{}".to_string() },
            FileOp::Rename {
                from: "/ws/scratches/a.b.tmp".to_string(),
                to: "/ws/scratches/a.b.json".to_string()
            },
        ])
    );
    assert_eq!(
        projects.save(&project("p"), "{ }".to_string()),
        Ok(vec![
            FileOp::CreateDirAll { path: "/ws/projects/p".to_string() },
            FileOp::Write {
                path: "/ws/projects/p/project.tmp".to_string(),
                content: "{ }".to_string()
            },
            FileOp::Rename {
                from: "/ws/projects/p/project.tmp".to_string(),
                to: "/ws/projects/p/project.json".to_string()
            },
        ])
    );
    let template = Template { id: "t".to_string(), name: "n".to_string(), content: "c".to_string() };
    assert_eq!(
        templates.save(&template, "x".to_string()),
        Ok(vec![
            FileOp::Write { path: "/ws/templates/t.tmp".to_string(), content: "x".to_string() },
            FileOp::Rename {
                from: "/ws/templates/t.tmp".to_string(),
                to: "/ws/templates/t.json".to_string()
            },
        ])
    );
}

#[test]
fn delete_plans_remove_only_what_exists() {
    let workspace = Arc::new(Workspace::new("/ws"));
    let scratches = FilesystemScratchRepository::new(workspace.clone());
    let projects = FilesystemProjectRepository::new(workspace.clone());
    let templates = FilesystemTemplateRepository::new(workspace);
    assert_eq!(
        scratches.delete("a", true),
        vec![FileOp::RemoveFile { path: "/ws/scratches/a.json".to_string() }]
    );
    assert_eq!(scratches.delete("a", false), vec![]);
    assert_eq!(
        projects.delete("p", true),
        vec![FileOp::RemoveDirAll { path: "/ws/projects/p".to_string() }]
    );
    assert_eq!(projects.delete("p", false), vec![]);
    assert_eq!(
        templates.delete("t", true),
        vec![FileOp::RemoveFile { path: "/ws/templates/t.json".to_string() }]
    );
    assert_eq!(templates.delete("t", false), vec![]);
}

#[test]
fn load_maps_each_finding_to_its_result() {
    let repo = FilesystemScratchRepository::new(Arc::new(Workspace::new("/ws")));
    assert_eq!(
        repo.load("s1", Fetched::Missing),
        Err(CoreError::NotFound("Scratch s1".to_string()))
    );
    assert_eq!(
        repo.load("s1", Fetched::Failed("permission denied".to_string())),
        Err(CoreError::Storage("permission denied".to_string()))
    );
    assert_eq!(repo.load("s1", Fetched::Found(scratch("s1"))), Ok(scratch("s1")));
}

#[test]
fn scratch_listing_fails_on_the_first_failure() {
    let repo = FilesystemScratchRepository::new(Arc::new(Workspace::new("/ws")));
    assert_eq!(repo.list(vec![]), Ok(vec![]));
    assert_eq!(
        repo.list(vec![
            Entry::Candidate(Ok(scratch("a"))),
            Entry::Foreign,
            Entry::Candidate(Ok(scratch("b"))),
        ]),
        Ok(vec![scratch("a"), scratch("b")])
    );
    assert_eq!(
        repo.list(vec![
            Entry::Candidate(Ok(scratch("a"))),
            Entry::Candidate(Err(CoreError::Storage("first".to_string()))),
            Entry::Broken("second".to_string()),
        ]),
        Err(CoreError::Storage("first".to_string()))
    );
    assert_eq!(
        repo.list(vec![
            Entry::Broken("entry".to_string()),
            Entry::Candidate(Err(CoreError::Storage("file".to_string()))),
        ]),
        Err(CoreError::Storage("entry".to_string()))
    );
}

#[test]
fn project_listing_skips_failed_candidates_only() {
    let repo = FilesystemProjectRepository::new(Arc::new(Workspace::new("/ws")));
    let p = project("p");
    let q = project("q");
    assert_eq!(
        repo.list(vec![
            Entry::Candidate(Err(CoreError::NotFound("Project x".to_string()))),
            Entry::Candidate(Ok(p.clone())),
            Entry::Foreign,
            Entry::Candidate(Err(CoreError::Storage("corrupt".to_string()))),
            Entry::Candidate(Ok(q.clone())),
        ]),
        Ok(vec![p.clone(), q])
    );
    assert_eq!(
        repo.list(vec![Entry::Candidate(Ok(p)), Entry::Broken("unreadable entry".to_string())]),
        Err(CoreError::Storage("unreadable entry".to_string()))
    );
}

#[test]
fn entity_files_are_those_with_the_json_extension() {
    assert!(is_entity_file("/ws/scratches/abc.json"));
    assert!(is_entity_file("a.b.json"));
    assert!(!is_entity_file("/ws/scratches/abc.tmp"));
    assert!(!is_entity_file("/ws/scratches/abc.json.tmp"));
    assert!(!is_entity_file("/ws/scratches/json"));
    assert!(!is_entity_file("/ws/scratches/.json"));
    assert!(!is_entity_file("/ws/dir.json/file"));
    assert!(!is_entity_file("/ws/scratches/abc.JSON"));
}

#[test]
fn saved_scratch_loads_equal_in_all_fields() {
    let disk = Disk::new(ROOT);
    let repo = Scratches::new(&disk, ready_workspace(&disk));
    let mut given = scratch("round-trip");
    given.source = Some("a \"quoted\" source\nwith a line break".to_string());
    repo.save(&given).unwrap();
    assert_eq!(repo.load("round-trip").unwrap(), given);
}

#[test]
fn saved_project_and_template_load_equal() {
    let disk = Disk::new(ROOT);
    let workspace = ready_workspace(&disk);
    let projects = Projects::new(&disk, workspace.clone());
    let templates = Templates::new(&disk, workspace);
    let p = project("p1");
    projects.save(&p).unwrap();
    assert_eq!(projects.load("p1").unwrap(), p);
    let t = Template {
        id: "t1".to_string(),
        name: "Novel".to_string(),
        content: "# {{title}}".to_string(),
    };
    templates.save(&t).unwrap();
    assert_eq!(templates.load("t1").unwrap(), t);
    assert_eq!(templates.list().unwrap(), vec![t]);
    templates.delete("t1").unwrap();
    assert!(templates.load("t1").unwrap_err().is_not_found());
}

#[test]
fn save_overwrites_what_was_stored() {
    let disk = Disk::new(ROOT);
    let repo = Scratches::new(&disk, ready_workspace(&disk));
    let mut s = scratch("same");
    repo.save(&s).unwrap();
    s.title = "Second version".to_string();
    repo.save(&s).unwrap();
    assert_eq!(repo.load("same").unwrap().title, "Second version");
    assert_eq!(repo.list().unwrap().len(), 1);
}

#[test]
fn save_leaves_no_temporary_file() {
    let disk = Disk::new(ROOT);
    let repo = Scratches::new(&disk, ready_workspace(&disk));
    repo.save(&scratch("abc")).unwrap();
    let names: Vec<String> = disk.borrow().files.keys().cloned().collect();
    assert_eq!(names, vec![format!("{}/scratches/abc.json", ROOT)]);
}

#[test]
fn project_save_needs_no_directory_beforehand() {
    let disk = Disk::new(ROOT);
    let workspace = ready_workspace(&disk);
    let projects = Projects::new(&disk, workspace);
    assert!(!disk.borrow().has(&projects.repo.project_dir("new").unwrap()));
    projects.save(&project("new")).unwrap();
    assert!(disk.borrow().dirs.contains(&projects.repo.project_dir("new").unwrap()));
}

#[test]
fn save_without_directories_is_a_storage_failure() {
    let disk = Disk::new(ROOT);
    let repo = Scratches::new(&disk, Arc::new(Workspace::new(ROOT)));
    assert!(repo.save(&scratch("early")).unwrap_err().is_storage());
    assert!(disk.borrow().files.is_empty());
}

#[test]
fn delete_twice_succeeds_both_times() {
    let disk = Disk::new(ROOT);
    let workspace = ready_workspace(&disk);
    let scratches = Scratches::new(&disk, workspace.clone());
    let projects = Projects::new(&disk, workspace);
    scratches.save(&scratch("gone")).unwrap();
    assert_eq!(scratches.delete("gone"), Ok(()));
    assert_eq!(scratches.delete("gone"), Ok(()));
    assert_eq!(scratches.delete("never-there"), Ok(()));
    projects.save(&project("gone")).unwrap();
    assert_eq!(projects.delete("gone"), Ok(()));
    assert_eq!(projects.delete("gone"), Ok(()));
    assert!(disk.borrow().files.is_empty());
}

#[test]
fn interrupted_write_keeps_previous_version() {
    let disk = Disk::new(ROOT);
    let store = Scratches::new(&disk, ready_workspace(&disk));
    let first = scratch("atomic");
    store.save(&first).unwrap();

    // A second save that stops before the rename, with half of its text
    // written.
    let mut second = first.clone();
    second.title = "Never committed".to_string();
    let json = scratch_to_json(&second);
    let plan = store.repo.save(&second, json[..json.len() / 2].to_string()).unwrap();
    assert_eq!(plan.len(), 2);
    disk.borrow_mut().perform(&plan[0]).unwrap();

    assert_eq!(store.load("atomic").unwrap(), first);
    assert_eq!(store.list().unwrap(), vec![first]);
}

#[test]
fn interrupted_first_write_is_not_found() {
    let disk = Disk::new(ROOT);
    let store = Scratches::new(&disk, ready_workspace(&disk));
    let plan = store.repo.save(&scratch("fresh"), "{ \"id\": \"fr".to_string()).unwrap();
    disk.borrow_mut().perform(&plan[0]).unwrap();
    assert!(store.load("fresh").unwrap_err().is_not_found());
    assert_eq!(store.list().unwrap(), vec![]);
}

#[test]
fn interrupted_project_save_keeps_previous_version() {
    let disk = Disk::new(ROOT);
    let store = Projects::new(&disk, ready_workspace(&disk));
    let first = project("book");
    store.save(&first).unwrap();
    let plan = store.repo.save(&first, "{ \"id\": \"bo".to_string()).unwrap();
    assert_eq!(plan.len(), 3);
    disk.borrow_mut().perform(&plan[0]).unwrap();
    assert_eq!(store.load("book").unwrap(), first);
    disk.borrow_mut().perform(&plan[1]).unwrap();
    assert_eq!(store.load("book").unwrap(), first);
    assert_eq!(store.list().unwrap(), vec![first]);
}

#[test]
fn listing_after_delete_returns_the_rest() {
    let disk = Disk::new(ROOT);
    let store = Scratches::new(&disk, ready_workspace(&disk));
    store.save(&scratch("a")).unwrap();
    store.save(&scratch("b")).unwrap();
    store.save(&scratch("c")).unwrap();
    store.delete("b").unwrap();
    let mut ids: Vec<String> = store.list().unwrap().into_iter().map(|s| s.id).collect();
    ids.sort();
    assert_eq!(ids, vec!["a".to_string(), "c".to_string()]);
}

#[test]
fn load_missing_is_not_found_not_storage() {
    let disk = Disk::new(ROOT);
    let workspace = ready_workspace(&disk);
    let scratches = Scratches::new(&disk, workspace.clone());
    let error = scratches.load("missing-id").unwrap_err();
    assert!(error.is_not_found());
    assert!(!error.is_storage());
    assert_eq!(error, CoreError::NotFound("Scratch missing-id".to_string()));
    assert_eq!(error.to_string(), "Not found: Scratch missing-id");
    let projects = Projects::new(&disk, workspace.clone());
    assert_eq!(
        projects.load("missing-id").unwrap_err(),
        CoreError::NotFound("Project missing-id".to_string())
    );
    let templates = Templates::new(&disk, workspace);
    assert_eq!(
        templates.load("missing-id").unwrap_err(),
        CoreError::NotFound("Template missing-id".to_string())
    );
}

#[test]
fn corrupt_scratch_fails_load_and_list_with_storage() {
    let disk = Disk::new(ROOT);
    let store = Scratches::new(&disk, ready_workspace(&disk));
    store.save(&scratch("good")).unwrap();
    let bad = FileOp::Write {
        path: store.repo.scratch_path("bad").unwrap(),
        content: "{ not json".to_string(),
    };
    disk.borrow_mut().perform(&bad).unwrap();
    let error = store.load("bad").unwrap_err();
    assert!(error.is_storage());
    assert!(error.to_string().starts_with("Storage error: "));
    assert!(store.list().unwrap_err().is_storage());
}

#[test]
fn scratch_listing_ignores_other_files() {
    let disk = Disk::new(ROOT);
    let workspace = ready_workspace(&disk);
    let dir = workspace.scratches_dir();
    let store = Scratches::new(&disk, workspace);
    store.save(&scratch("only")).unwrap();
    for (name, content) in [("notes.txt", "not an entity"), ("pending.tmp", "{ half"), (".json", "{")] {
        let op = FileOp::Write { path: format!("{}/{}", dir, name), content: content.to_string() };
        disk.borrow_mut().perform(&op).unwrap();
    }
    assert_eq!(store.list().unwrap(), vec![scratch("only")]);
}

#[test]
fn project_listing_skips_what_does_not_load() {
    let disk = Disk::new(ROOT);
    let workspace = ready_workspace(&disk);
    let dir = workspace.projects_dir();
    let store = Projects::new(&disk, workspace);
    let good = project("good");
    store.save(&good).unwrap();
    let debris = [
        FileOp::CreateDirAll { path: format!("{}/empty-dir", dir) },
        FileOp::CreateDirAll { path: format!("{}/corrupt", dir) },
        FileOp::Write { path: format!("{}/corrupt/project.json", dir), content: "{ no".to_string() },
        FileOp::Write { path: format!("{}/stray-file.json", dir), content: "{}".to_string() },
    ];
    for op in &debris {
        disk.borrow_mut().perform(op).unwrap();
    }
    assert!(store.load("corrupt").unwrap_err().is_storage());
    assert!(store.load("empty-dir").unwrap_err().is_not_found());
    assert_eq!(store.list().unwrap(), vec![good]);
}

#[test]
fn listing_a_missing_directory_is_a_storage_failure() {
    let disk = Disk::new(ROOT);
    let store = Scratches::new(&disk, Arc::new(Workspace::new(ROOT)));
    assert!(store.list().unwrap_err().is_storage());
}

#[test]
fn enumeration_can_stop_at_the_entry_that_fails_the_listing() {
    let broken: Entry<Scratch> = Entry::Broken("unreadable".to_string());
    let failed: Entry<Scratch> = Entry::Candidate(Err(CoreError::Storage("corrupt".to_string())));
    let loaded: Entry<Scratch> = Entry::Candidate(Ok(scratch("a")));
    let foreign: Entry<Scratch> = Entry::Foreign;
    assert!(broken.ends_strict_listing() && broken.ends_lenient_listing());
    assert!(failed.ends_strict_listing() && !failed.ends_lenient_listing());
    assert!(!loaded.ends_strict_listing() && !loaded.ends_lenient_listing());
    assert!(!foreign.ends_strict_listing() && !foreign.ends_lenient_listing());

    let repo = FilesystemScratchRepository::new(Arc::new(Workspace::new("/ws")));
    let cut = repo.list(vec![Entry::Candidate(Ok(scratch("a"))), Entry::Broken("x".to_string())]);
    let whole = repo.list(vec![
        Entry::Candidate(Ok(scratch("a"))),
        Entry::Broken("x".to_string()),
        Entry::Candidate(Ok(scratch("b"))),
        Entry::Broken("y".to_string()),
    ]);
    assert_eq!(cut, whole);
    assert_eq!(cut, Err(CoreError::Storage("x".to_string())));
}

#[test]
fn a_candidate_that_cannot_be_read_is_a_storage_failure() {
    assert_eq!(Entry::from_read(Ok(scratch("a"))), Entry::Candidate(Ok(scratch("a"))));
    assert_eq!(
        Entry::<Scratch>::from_read(Err("expected value at line 1".to_string())),
        Entry::Candidate(Err(CoreError::Storage("expected value at line 1".to_string())))
    );
}

const NOT_FILE_NAMES: [&str; 9] = ["", ".", "..", "/", "a/b", "/etc/passwd", "../escape", "a/", "/ws/scratches/x"];

#[test]
fn ids_that_are_not_file_names_have_no_path() {
    let workspace = Arc::new(Workspace::new("/ws"));
    let scratches = FilesystemScratchRepository::new(workspace.clone());
    let projects = FilesystemProjectRepository::new(workspace.clone());
    let templates = FilesystemTemplateRepository::new(workspace);
    for id in NOT_FILE_NAMES {
        assert_eq!(scratches.scratch_path(id), None, "{:?}", id);
        assert_eq!(templates.template_path(id), None, "{:?}", id);
        assert_eq!(projects.project_dir(id), None, "{:?}", id);
        assert_eq!(projects.project_path(id), None, "{:?}", id);
    }
    for id in ["a", "...", ".a", "a.", "a b", "tmp", "x.tmp", "ünï"] {
        assert!(scratches.scratch_path(id).is_some(), "{:?}", id);
        assert!(projects.project_dir(id).is_some(), "{:?}", id);
    }
}

#[test]
fn saving_under_an_id_that_is_not_a_file_name_is_refused() {
    let disk = Disk::new(ROOT);
    let workspace = ready_workspace(&disk);
    let scratches = Scratches::new(&disk, workspace.clone());
    let projects = Projects::new(&disk, workspace.clone());
    let templates = Templates::new(&disk, workspace);
    let before_files = disk.borrow().files.clone();
    let before_dirs = disk.borrow().dirs.clone();
    for id in NOT_FILE_NAMES {
        let refused = Err(CoreError::Storage(format!("invalid id: {}", id)));
        assert_eq!(scratches.save(&scratch(id)), refused, "{:?}", id);
        assert_eq!(projects.save(&project(id)), refused, "{:?}", id);
        let template = Template { id: id.to_string(), name: String::new(), content: String::new() };
        assert_eq!(templates.save(&template), refused, "{:?}", id);
        assert_eq!(scratches.repo.save(&scratch(id), "{}".to_string()), Err(CoreError::Storage(format!("invalid id: {}", id))));
    }
    assert_eq!(disk.borrow().files, before_files);
    assert_eq!(disk.borrow().dirs, before_dirs);
}

#[test]
fn nothing_is_stored_under_an_id_that_is_not_a_file_name() {
    let disk = Disk::new(ROOT);
    let workspace = ready_workspace(&disk);
    let scratches = Scratches::new(&disk, workspace.clone());
    let projects = Projects::new(&disk, workspace);
    for id in NOT_FILE_NAMES {
        assert_eq!(scratches.load(id), Err(CoreError::NotFound(format!("Scratch {}", id))));
        assert_eq!(projects.load(id), Err(CoreError::NotFound(format!("Project {}", id))));
        assert_eq!(
            scratches.repo.load(id, Fetched::Found(scratch("a"))),
            Err(CoreError::NotFound(format!("Scratch {}", id)))
        );
        assert_eq!(scratches.repo.delete(id, true), vec![]);
        assert_eq!(projects.repo.delete(id, true), vec![]);
    }
}

#[test]
fn deleting_an_odd_id_leaves_every_entity() {
    let disk = Disk::new(ROOT);
    let workspace = ready_workspace(&disk);
    let scratches = Scratches::new(&disk, workspace.clone());
    let projects = Projects::new(&disk, workspace.clone());
    let templates = Templates::new(&disk, workspace.clone());
    let p = project("p");
    let q = project("q");
    let s = scratch("t");
    let t = Template { id: "t".to_string(), name: "n".to_string(), content: "c".to_string() };
    projects.save(&p).unwrap();
    projects.save(&q).unwrap();
    scratches.save(&s).unwrap();
    templates.save(&t).unwrap();
    let rooted = format!("{}/t", workspace.templates_dir());
    for id in ["", ".", "..", "../templates", rooted.as_str(), "p/project.json"] {
        assert_eq!(projects.delete(id), Ok(()), "{:?}", id);
        assert_eq!(projects.delete(id), Ok(()), "{:?}", id);
        assert_eq!(templates.delete(id), Ok(()), "{:?}", id);
        assert_eq!(scratches.delete(id), Ok(()), "{:?}", id);
    }
    assert_eq!(projects.load("p"), Ok(p.clone()));
    assert_eq!(projects.load("q"), Ok(q.clone()));
    assert_eq!(scratches.load("t"), Ok(s));
    assert_eq!(templates.load("t"), Ok(t));
    let mut listed = projects.list().unwrap();
    listed.sort_by(|a, b| a.id.cmp(&b.id));
    assert_eq!(listed, vec![p, q]);
}

#[test]
fn deleting_one_project_leaves_the_other() {
    let disk = Disk::new(ROOT);
    let projects = Projects::new(&disk, ready_workspace(&disk));
    let a = project("a");
    let ab = project("ab");
    projects.save(&a).unwrap();
    projects.save(&ab).unwrap();
    projects.delete("a").unwrap();
    assert!(projects.load("a").unwrap_err().is_not_found());
    assert_eq!(projects.load("ab"), Ok(ab.clone()));
    assert_eq!(projects.list(), Ok(vec![ab]));
}

#[test]
fn every_stored_scratch_is_listed() {
    let disk = Disk::new(ROOT);
    let scratches = Scratches::new(&disk, ready_workspace(&disk));
    let ids = [".hidden", "...", "a.", "tmp", "x.tmp", "json", "with space", "a.b.c"];
    for id in ids {
        scratches.save(&scratch(id)).unwrap();
    }
    let mut listed: Vec<String> = scratches.list().unwrap().into_iter().map(|s| s.id).collect();
    listed.sort();
    let mut expected: Vec<String> = ids.iter().map(|id| id.to_string()).collect();
    expected.sort();
    assert_eq!(listed, expected);
}

#[test]
fn atomic_write_never_writes_in_place() {
    assert_eq!(
        write_atomic("x.tmp", "new".to_string()),
        vec![
            FileOp::Write { path: "x.tmp.tmp".to_string(), content: "new".to_string() },
            FileOp::Rename { from: "x.tmp.tmp".to_string(), to: "x.tmp".to_string() },
        ]
    );
    assert_eq!(
        write_atomic("dir/x.json", "new".to_string()),
        vec![
            FileOp::Write { path: "dir/x.tmp".to_string(), content: "new".to_string() },
            FileOp::Rename { from: "dir/x.tmp".to_string(), to: "dir/x.json".to_string() },
        ]
    );
    for path in ["x.tmp", "a/b.tmp", ".tmp", "tmp", "a.tmp.tmp", "", "a/", "x.json", "noext"] {
        let plan = write_atomic(path, "text".to_string());
        match &plan[0] {
            FileOp::Write { path: temp, .. } => assert_ne!(temp, path),
            other => panic!("unexpected first step {:?}", other),
        }
        assert_eq!(plan.len(), 2);
    }
}

#[test]
fn interrupted_write_to_a_tmp_path_keeps_previous_version() {
    let disk = Disk::new(ROOT);
    let path = format!("{}/notes.tmp", ROOT);
    disk.borrow_mut()
        .perform(&FileOp::Write { path: path.clone(), content: "old".to_string() })
        .unwrap();
    let plan = write_atomic(&path, "new text".to_string());
    let torn = match &plan[0] {
        FileOp::Write { path, .. } => FileOp::Write { path: path.clone(), content: "new".to_string() },
        other => panic!("unexpected first step {:?}", other),
    };
    disk.borrow_mut().perform(&torn).unwrap();
    assert_eq!(disk.borrow().read(&path), Ok("old".to_string()));
    for op in &plan {
        disk.borrow_mut().perform(op).unwrap();
    }
    assert_eq!(disk.borrow().read(&path), Ok("new text".to_string()));
    assert_eq!(disk.borrow().files.len(), 1);
}
