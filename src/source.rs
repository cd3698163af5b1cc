use vstd::prelude::*;
use crate::errors::CliError;

verus! {

/// A category as the contracts see it: its name and optional display alias.
pub struct CategoryView {
    pub name: Seq<char>,
    pub alias: Option<Seq<char>>,
}

pub open spec fn opt_str_view(o: Option<String>) -> Option<Seq<char>> {
    match o {
        Some(s) => Some(s@),
        None => None,
    }
}

/// One category of bookmarks.
#[derive(Clone, Debug)]
pub struct Category {
    name: String,
    alias: Option<String>,
}

impl View for Category {
    type V = CategoryView;

    closed spec fn view(&self) -> CategoryView {
        CategoryView { name: self.name@, alias: opt_str_view(self.alias) }
    }
}

impl Category {
    pub fn new(name: String, alias: Option<String>) -> (r: Category)
        ensures
            r@ == (CategoryView { name: name@, alias: opt_str_view(alias) }),
    {
        Category { name, alias }
    }

    pub fn name(&self) -> (r: &String)
        ensures
            r@ == self@.name,
    {
        &self.name
    }

    pub fn alias(&self) -> (r: &Option<String>)
        ensures
            opt_str_view(*r) == self@.alias,
    {
        &self.alias
    }
}

/// The ordered list of categories held by the manifest.
#[derive(Clone, Debug)]
pub struct Categories {
    categories: Vec<Category>,
}

pub open spec fn categories_view(v: Seq<Category>) -> Seq<CategoryView> {
    v.map_values(|c: Category| c@)
}

impl View for Categories {
    type V = Seq<CategoryView>;

    closed spec fn view(&self) -> Seq<CategoryView> {
        categories_view(self.categories@)
    }
}

pub open spec fn category_spec(name: &str, alias: &str) -> CategoryView {
    CategoryView { name: name@, alias: Some(alias@) }
}

/// The categories a fresh manifest is seeded with, in this order.
pub open spec fn default_categories() -> Seq<CategoryView> {
    seq![
        category_spec("video", "Video"),
        category_spec("article", "Articles"),
        category_spec("books", "Books"),
    ]
}

impl Categories {
    pub fn new(categories: Vec<Category>) -> (r: Categories)
        ensures
            r@ == categories_view(categories@),
    {
        Categories { categories }
    }

    pub fn categories(&self) -> (r: &Vec<Category>)
        ensures
            categories_view(r@) == self@,
    {
        &self.categories
    }
}

impl Default for Categories {
    fn default() -> (r: Categories)
        ensures
            r@ == default_categories(),
    {
        let video = Category::new("video".to_owned(), Some("Video".to_owned()));
        let article = Category::new("article".to_owned(), Some("Articles".to_owned()));
        let books = Category::new("books".to_owned(), Some("Books".to_owned()));
        let r = Categories::new(vec![video, article, books]);
        assert(r@ =~= default_categories());
        r
    }
}

/// Name of the manifest file inside the notes repository's working directory.
pub const MANIFEST_FILE: &'static str = "config.toml";

/// Name of the notes repository's directory inside the application's directory.
pub const NOTES_DIR: &'static str = "pinbox-notes";

/// The remote that the seeded manifest is pushed to.
pub const REMOTE_NAME: &'static str = "origin";

/// The branch that the seeded manifest is pushed to.
pub const PUSH_REFSPEC: &'static str = "refs/heads/main";

/// How the local notes repository is to be obtained.
#[derive(Debug)]
pub enum RepoAction {
    /// Open the existing working copy.
    Open,
    /// Clone the given remote URL into the (empty) directory.
    Clone(String),
}

/// Decides how to obtain the notes repository. An empty directory is the
/// sign that nothing was cloned yet; then the configured remote is cloned,
/// and without one the command fails. A non-empty directory is opened.
/// `repository` is the configured remote; it is only looked at when the
/// directory is empty.
pub fn get_repository(dir_is_empty: bool, repository: Option<String>) -> (r: Result<
    RepoAction,
    CliError,
>)
    ensures
        !dir_is_empty ==> r matches Ok(RepoAction::Open),
        dir_is_empty && repository is None ==> r matches Err(CliError::RepositoryNotSet),
        dir_is_empty && repository is Some ==> (r matches Ok(RepoAction::Clone(u)) && u
            == repository.unwrap()),
{
    if dir_is_empty {
        match repository {
            Some(u) => Ok(RepoAction::Clone(u)),
            None => Err(CliError::RepositoryNotSet),
        }
    } else {
        Ok(RepoAction::Open)
    }
}

/// One step of bringing the category manifest into being and reading it.
#[derive(Debug)]
pub enum SyncAction {
    /// Load the application's settings (the push needs the token).
    LoadConfig,
    /// Write these categories as the manifest.
    WriteManifest(Categories),
    /// Look up the remote of this name.
    FindRemote(String),
    /// Push this ref to the remote found.
    Push(String),
    /// Read the manifest and return what it holds.
    ReadManifest,
}

/// A step of `SyncAction` as the contracts see it.
pub enum SyncStep {
    LoadConfig,
    WriteManifest(Seq<CategoryView>),
    FindRemote(Seq<char>),
    Push(Seq<char>),
    ReadManifest,
}

impl View for SyncAction {
    type V = SyncStep;

    open spec fn view(&self) -> SyncStep {
        match self {
            SyncAction::LoadConfig => SyncStep::LoadConfig,
            SyncAction::WriteManifest(c) => SyncStep::WriteManifest(c@),
            SyncAction::FindRemote(n) => SyncStep::FindRemote(n@),
            SyncAction::Push(s) => SyncStep::Push(s@),
            SyncAction::ReadManifest => SyncStep::ReadManifest,
        }
    }
}

/// The steps taken for the manifest: when it is missing, the defaults are
/// written and pushed to `origin`'s `main` first; then it is read.
pub open spec fn sync_plan(manifest_exists: bool) -> Seq<SyncStep> {
    if manifest_exists {
        seq![SyncStep::ReadManifest]
    } else {
        seq![
            SyncStep::LoadConfig,
            SyncStep::WriteManifest(default_categories()),
            SyncStep::FindRemote("origin"@),
            SyncStep::Push("refs/heads/main"@),
            SyncStep::ReadManifest,
        ]
    }
}

/// Whether a plan writes the manifest or pushes.
pub open spec fn changes_anything(plan: Seq<SyncStep>) -> bool {
    exists|i: int|
        0 <= i < plan.len() && (plan[i] is WriteManifest || plan[i] is Push)
}

/// The manifest (`None`: no file) after the steps of `plan` were taken on it.
pub open spec fn manifest_after(manifest: Option<Seq<CategoryView>>, plan: Seq<SyncStep>) -> Option<
    Seq<CategoryView>,
>
    decreases plan.len(),
{
    if plan.len() == 0 {
        manifest
    } else {
        let next = match plan[0] {
            SyncStep::WriteManifest(c) => Some(c),
            _ => manifest,
        };
        manifest_after(next, plan.drop_first())
    }
}

/// Lists the steps that `get_categories` takes, given whether the manifest
/// file exists.
pub fn plan_categories(manifest_exists: bool) -> (r: Vec<SyncAction>)
    ensures
        r@.len() == sync_plan(manifest_exists).len(),
        r@.map_values(|a: SyncAction| a@) == sync_plan(manifest_exists),
{
    proof {
        reveal_strlit("origin");
        reveal_strlit("refs/heads/main");
    }
    let mut r: Vec<SyncAction> = Vec::new();
    if !manifest_exists {
        r.push(SyncAction::LoadConfig);
        r.push(SyncAction::WriteManifest(Categories::default()));
        r.push(SyncAction::FindRemote(REMOTE_NAME.to_owned()));
        r.push(SyncAction::Push(PUSH_REFSPEC.to_owned()));
    }
    r.push(SyncAction::ReadManifest);
    assert(r@.map_values(|a: SyncAction| a@) =~= sync_plan(manifest_exists));
    r
}

/// Seeding the manifest happens once: whatever the manifest was, after one
/// run of the plan it exists, a second run neither writes nor pushes, and
/// both runs leave (and so read back) the same categories.
pub proof fn lemma_seeding_is_one_shot(manifest: Option<Seq<CategoryView>>)
    ensures
        manifest_after(manifest, sync_plan(manifest is Some)) is Some,
        !changes_anything(
            sync_plan(manifest_after(manifest, sync_plan(manifest is Some)) is Some),
        ),
        manifest_after(
            manifest_after(manifest, sync_plan(manifest is Some)),
            sync_plan(manifest_after(manifest, sync_plan(manifest is Some)) is Some),
        ) == manifest_after(manifest, sync_plan(manifest is Some)),
{
    let first = sync_plan(manifest is Some);
    reveal_with_fuel(manifest_after, 6);
    let d1 = manifest_after(manifest, first);
    if manifest is None {
        assert(first.drop_first().drop_first() =~= seq![
            SyncStep::FindRemote("origin"@),
            SyncStep::Push("refs/heads/main"@),
            SyncStep::ReadManifest,
        ]);
    }
    assert(d1 is Some);
    let second = sync_plan(true);
    assert(second.drop_first() =~= Seq::<SyncStep>::empty());
    assert(!changes_anything(second));
}

/// Picks the credentials for a push when the transport asks for them: the
/// user name that the transport suggests, else `git`, with the configured
/// token as the password. Without a token, or when the transport does not
/// take a plain user name and password, no credentials are given.
pub fn push_credentials(
    plaintext_allowed: bool,
    username: Option<&str>,
    token: &Option<String>,
) -> (r: Result<(String, String), CliError>)
    ensures
        token is None ==> r matches Err(CliError::TokenNotSet),
        token is Some && !plaintext_allowed ==> r matches Err(CliError::AuthNotSupported),
        token is Some && plaintext_allowed ==> r is Ok && r->Ok_0.1@ == token.unwrap()@
            && r->Ok_0.0@ == match username {
            Some(u) => u@,
            None => "git"@,
        },
{
    match token {
        None => Err(CliError::TokenNotSet),
        Some(t) => {
            if plaintext_allowed {
                let user = match username {
                    Some(u) => u.to_owned(),
                    None => "git".to_owned(),
                };
                Ok((user, t.clone()))
            } else {
                Err(CliError::AuthNotSupported)
            }
        },
    }
}

} // verus!
