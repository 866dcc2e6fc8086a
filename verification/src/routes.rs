//! The decisions behind each request. A handler takes what the request and
//! the files brought and says what to answer and what to write; reading,
//! writing and rendering happen elsewhere.

use vstd::prelude::*;
use crate::catalog::{appended, after_append, Catalog};
use crate::entry::{
    build_entry, logged, render_timestamp, utc_text, EntryForm, EntryFormView, LogRecord, LogRecordView,
};
use crate::failure::Failure;
use crate::login::{LoginState, LoginView};
use crate::material::{option_text, Material, MaterialForm, MaterialFormView, MaterialView};
use crate::slug::{entry_key, entry_label, slug, slug_text};
use crate::store::{load_catalog, loaded, CatalogFile};

verus! {

/// Where a redirect leads.
#[derive(Clone, Copy, Debug, PartialEq, Eq, Structural)]
pub enum Target {
    /// The landing page.
    Landing,
    /// The entry form.
    EntryForm,
}

impl Target {
    /// The path of each target.
    pub open spec fn location(self) -> Seq<char> {
        match self {
            Target::Landing => "/"@,
            Target::EntryForm => "/entry/new"@,
        }
    }

    /// The path to redirect to.
    pub fn path(&self) -> (p: &'static str)
        ensures
            p@ == self.location(),
    {
        match self {
            Target::Landing => "/",
            Target::EntryForm => "/entry/new",
        }
    }
}

/// Mathematical model of an [`EntryTemplate`].
pub struct EntryTemplateView {
    pub time: Seq<char>,
    pub timestamp: int,
    pub user: Seq<char>,
    pub materials: Map<Seq<char>, MaterialView>,
}

/// What the entry form is filled with: the current time, for people and as
/// a timestamp, the current user, and the catalog to choose from.
#[derive(Debug)]
pub struct EntryTemplate {
    pub time: String,
    pub timestamp: i64,
    pub user: String,
    pub materials: Catalog,
}

impl View for EntryTemplate {
    type V = EntryTemplateView;

    open spec fn view(&self) -> EntryTemplateView {
        EntryTemplateView {
            time: self.time@,
            timestamp: self.timestamp as int,
            user: self.user@,
            materials: self.materials@,
        }
    }
}

/// Mathematical model of a [`Page`].
pub enum PageView {
    Landing,
    NewMaterial,
    NewEntry(EntryTemplateView),
}

/// A page to render.
#[derive(Debug)]
pub enum Page {
    /// The landing page, which waits for the station to be unlocked.
    Landing,
    /// The form for a new material.
    NewMaterial,
    /// The form for a new entry.
    NewEntry(EntryTemplate),
}

impl View for Page {
    type V = PageView;

    open spec fn view(&self) -> PageView {
        match self {
            Page::Landing => PageView::Landing,
            Page::NewMaterial => PageView::NewMaterial,
            Page::NewEntry(context) => PageView::NewEntry(context@),
        }
    }
}

impl PageView {
    /// The name of the template that renders each page.
    pub open spec fn template_name(self) -> Seq<char> {
        match self {
            PageView::Landing => "landing"@,
            PageView::NewMaterial => "new-material"@,
            PageView::NewEntry(_) => "new-entry"@,
        }
    }
}

impl Page {
    /// The name of the template that renders this page.
    pub fn template(&self) -> (name: &'static str)
        ensures
            name@ == self@.template_name(),
    {
        match self {
            Page::Landing => "landing",
            Page::NewMaterial => "new-material",
            Page::NewEntry(_) => "new-entry",
        }
    }
}

/// Mathematical model of a [`Reply`].
pub enum ReplyView {
    Render(PageView),
    Redirect(Target),
    Text(Seq<char>),
    Failed(Failure),
}

/// The answer to a request.
#[derive(Debug)]
pub enum Reply {
    /// A rendered page.
    Render(Page),
    /// A redirect.
    Redirect(Target),
    /// A plain text.
    Text(String),
    /// An error response; never a redirect.
    Failed(Failure),
}

impl View for Reply {
    type V = ReplyView;

    open spec fn view(&self) -> ReplyView {
        match self {
            Reply::Render(page) => ReplyView::Render(page@),
            Reply::Redirect(target) => ReplyView::Redirect(*target),
            Reply::Text(text) => ReplyView::Text(text@),
            Reply::Failed(failure) => ReplyView::Failed(*failure),
        }
    }
}

/// Mathematical model of a [`Write`].
pub enum WriteView {
    Catalog(Map<Seq<char>, MaterialView>),
    Log(LogRecordView),
}

/// What a request asks to be written.
#[derive(Debug)]
pub enum Write {
    /// Replace the catalog file by this catalog, as a whole.
    Catalog(Catalog),
    /// Append this record to the log.
    Log(LogRecord),
}

impl View for Write {
    type V = WriteView;

    open spec fn view(&self) -> WriteView {
        match self {
            Write::Catalog(catalog) => WriteView::Catalog(catalog@),
            Write::Log(record) => WriteView::Log(record@),
        }
    }
}

/// Mathematical model of a [`Plan`].
pub struct PlanView {
    pub write: Option<WriteView>,
    pub reply: ReplyView,
}

/// What a mutating request leads to: at most one write, and the reply to
/// give once the write, if any, has succeeded.
#[derive(Debug)]
pub struct Plan {
    pub write: Option<Write>,
    pub reply: Reply,
}

impl View for Plan {
    type V = PlanView;

    open spec fn view(&self) -> PlanView {
        PlanView {
            write: match self.write {
                Some(write) => Some(write@),
                None => None,
            },
            reply: self.reply@,
        }
    }
}

impl PlanView {
    /// The plan of a rejected request: nothing is written.
    pub open spec fn rejected(failure: Failure) -> PlanView {
        PlanView { write: None, reply: ReplyView::Failed(failure) }
    }

    /// The plan of an accepted request: one write, then a redirect.
    pub open spec fn accepted(write: WriteView, target: Target) -> PlanView {
        PlanView { write: Some(write), reply: ReplyView::Redirect(target) }
    }

    /// The reply once the outcome of the write is known. A failed write is
    /// reported as such; without a write the reply stands.
    pub open spec fn settled(self, written: bool) -> ReplyView {
        if self.write is Some && !written {
            ReplyView::Failed(Failure::WriteFailed)
        } else {
            self.reply
        }
    }
}

impl Plan {
    fn rejected(failure: Failure) -> (plan: Plan)
        ensures
            plan@ == PlanView::rejected(failure),
    {
        Plan { write: None, reply: Reply::Failed(failure) }
    }

    /// The reply to give once the write has been tried. `written` says
    /// whether it succeeded, and is ignored where the plan holds no write.
    pub fn settle(self, written: bool) -> (reply: Reply)
        ensures
            reply@ == self@.settled(written),
    {
        if self.write.is_some() && !written {
            Reply::Failed(Failure::WriteFailed)
        } else {
            self.reply
        }
    }
}

/// The text of a flag.
pub open spec fn flag_text(flag: bool) -> Seq<char> {
    if flag {
        "true"@
    } else {
        "false"@
    }
}

/// The landing page.
pub fn landing() -> (reply: Reply)
    ensures
        reply@ == ReplyView::Render(PageView::Landing),
{
    Reply::Render(Page::Landing)
}

/// Whether the station is unlocked, as plain text; polled by the landing
/// page.
pub fn get_login(state: &LoginState) -> (reply: Reply)
    ensures
        reply@ == ReplyView::Text(flag_text(state@.unlocked)),
{
    let text = if state.status() {
        "true"
    } else {
        "false"
    };
    Reply::Text(text.to_owned())
}

/// Unlocks the station for `username` and leads on to the entry form.
pub fn post_login(state: &mut LoginState, username: String) -> (reply: Reply)
    ensures
        final(state)@ == LoginView::unlocked_by(username@),
        reply@ == ReplyView::Redirect(Target::EntryForm),
{
    state.unlock(username);
    Reply::Redirect(Target::EntryForm)
}

/// Locks the station and leads back to the landing page.
pub fn post_logout(state: &mut LoginState) -> (reply: Reply)
    ensures
        final(state)@ == LoginView::locked(),
        reply@ == ReplyView::Redirect(Target::Landing),
{
    state.lock();
    Reply::Redirect(Target::Landing)
}

/// The form for a new material.
pub fn new_mat() -> (reply: Reply)
    ensures
        reply@ == ReplyView::Render(PageView::NewMaterial),
{
    Reply::Render(Page::NewMaterial)
}

/// The plan for a submitted material whose slug is `slug`: it joins the
/// catalog unless the catalog is unavailable or the slug is taken.
pub open spec fn material_plan(file: CatalogFile, form: MaterialFormView, slug: Seq<char>) -> PlanView {
    match loaded(file) {
        Err(failure) => PlanView::rejected(failure),
        Ok(catalog) => match appended(catalog, slug) {
            Err(failure) => PlanView::rejected(failure),
            Ok(_) => PlanView::accepted(
                WriteView::Catalog(
                    after_append(catalog, MaterialView::submitted(form.name, form.fullname), slug),
                ),
                Target::EntryForm,
            ),
        },
    }
}

/// Plans the registration of a submitted material under `slug`.
pub fn register_material(file: &CatalogFile, form: &MaterialForm, slug: String) -> (plan: Plan)
    ensures
        plan@ == material_plan(*file, form@, slug@),
{
    let mut catalog = match load_catalog(file) {
        Ok(catalog) => catalog,
        Err(failure) => {
            return Plan::rejected(failure);
        },
    };
    match catalog.append_material(Material::from_form(form), slug) {
        Ok(_) => Plan { write: Some(Write::Catalog(catalog)), reply: Reply::Redirect(Target::EntryForm) },
        Err(failure) => Plan::rejected(failure),
    }
}

/// A submitted material: it is registered under the slug of its name, the
/// whole catalog is written back, and the entry form follows.
pub fn post_mat(file: &CatalogFile, form: &MaterialForm) -> (plan: Plan)
    ensures
        plan@ == material_plan(*file, form@, slug_text(form@.name)),
{
    register_material(file, form, slug(form.name.as_str()))
}

/// The page for a new entry, given the time: the form, unless the catalog
/// is unavailable.
pub open spec fn entry_page(
    state: LoginView,
    file: CatalogFile,
    time: Seq<char>,
    timestamp: int,
) -> ReplyView {
    match loaded(file) {
        Err(failure) => ReplyView::Failed(failure),
        Ok(catalog) => ReplyView::Render(
            PageView::NewEntry(
                EntryTemplateView { time, timestamp, user: state.user, materials: catalog },
            ),
        ),
    }
}

/// The entry form, filled with the current user, the catalog, and the
/// current time as the caller read it off the clock.
pub fn new_entry(state: &LoginState, file: &CatalogFile, time: String, timestamp: i64) -> (reply: Reply)
    ensures
        reply@ == entry_page(state@, *file, time@, timestamp as int),
{
    match load_catalog(file) {
        Ok(catalog) => Reply::Render(
            Page::NewEntry(
                EntryTemplate { time, timestamp, user: state.current_user().clone(), materials: catalog },
            ),
        ),
        Err(failure) => Reply::Failed(failure),
    }
}

/// The plan for a submitted entry, given its rendered timestamp and its
/// key: the record is appended to the log unless the catalog is
/// unavailable, the material unknown or the timestamp out of range.
pub open spec fn entry_plan(
    file: CatalogFile,
    form: EntryFormView,
    rendered: Option<Seq<char>>,
    key: Seq<char>,
) -> PlanView {
    match loaded(file) {
        Err(failure) => PlanView::rejected(failure),
        Ok(catalog) => match logged(catalog, form, rendered, key) {
            Err(failure) => PlanView::rejected(failure),
            Ok(record) => PlanView::accepted(WriteView::Log(record), Target::EntryForm),
        },
    }
}

/// Plans the logging of a submitted entry whose timestamp renders as
/// `rendered` and whose key is `key`.
pub fn record_entry(file: &CatalogFile, form: &EntryForm, rendered: Option<String>, key: String) -> (plan:
    Plan)
    ensures
        plan@ == entry_plan(*file, form@, option_text(rendered), key@),
{
    let catalog = match load_catalog(file) {
        Ok(catalog) => catalog,
        Err(failure) => {
            return Plan::rejected(failure);
        },
    };
    match build_entry(&catalog, form, rendered, key) {
        Ok(record) => Plan { write: Some(Write::Log(record)), reply: Reply::Redirect(Target::EntryForm) },
        Err(failure) => Plan::rejected(failure),
    }
}

/// A submitted entry: its material is looked up, the record is appended to
/// the log, and the entry form follows.
pub fn post_entry(file: &CatalogFile, form: &EntryForm) -> (plan: Plan)
    ensures
        plan@ == entry_plan(
            *file,
            form@,
            utc_text(form.timestamp),
            slug_text(entry_label(form@.user, form@.timestamp)),
        ),
{
    let rendered = render_timestamp(form.timestamp);
    let key = entry_key(form.user.as_str(), form.timestamp);
    record_entry(file, form, rendered, key)
}

} // verus!
