use vstd::prelude::*;

use crate::select::{first_set, first_true};
use crate::text::{
    contains_text, decimal_of, decimal_text, join_text, lower_of, lowercase, same_text,
    seq_contains,
};

verus! {

/// A window as the primary enumeration source reports it.
pub struct WindowCandidate {
    pub title: String,
    pub app_name: String,
    pub is_minimized: bool,
}

/// A window as the secondary (window-list) enumeration source reports it.
pub struct CgWindow {
    pub window_id: u32,
    pub owner_name: String,
    pub name: String,
    pub layer: i32,
    pub x: i64,
    pub y: i64,
    pub width: i64,
    pub height: i64,
}

/// Smallest width and height, exclusive, of an untitled window picked by owner alone.
pub const MIN_UNTITLED_EXTENT: i64 = 100;

// ----- primary source -----
/// Pass one: the owning application's name contains the hint, case-sensitively.
pub open spec fn by_app(c: WindowCandidate, app: Seq<char>) -> bool {
    !c.is_minimized && app.len() > 0 && seq_contains(c.app_name@, app)
}

/// Pass two: the title is exactly the searched one.
pub open spec fn by_title(c: WindowCandidate, title: Seq<char>) -> bool {
    !c.is_minimized && c.title@ == title
}

/// Pass three: the lower-case title equals the lower-case searched one.
pub open spec fn by_folded_title(c: WindowCandidate, folded: Seq<char>, title_folded: Seq<char>) -> bool {
    !c.is_minimized && folded == title_folded
}

/// Pass four: the lower-case title contains the lower-case searched one.
pub open spec fn by_folded_part(c: WindowCandidate, folded: Seq<char>, title_folded: Seq<char>) -> bool {
    !c.is_minimized && seq_contains(folded, title_folded)
}

/// The window that the primary source's passes pick, given each title's lower-case
/// form (`folded`): the first match of the first pass that matches anything.
pub open spec fn primary_choice(
    cands: Seq<WindowCandidate>,
    folded: Seq<Seq<char>>,
    title: Seq<char>,
    title_folded: Seq<char>,
    app: Seq<char>,
) -> Option<int> {
    let p1 = first_true(Seq::new(cands.len(), |i: int| by_app(cands[i], app)));
    let p2 = first_true(Seq::new(cands.len(), |i: int| by_title(cands[i], title)));
    let p3 = first_true(
        Seq::new(cands.len(), |i: int| by_folded_title(cands[i], folded[i], title_folded)),
    );
    let p4 = first_true(
        Seq::new(cands.len(), |i: int| by_folded_part(cands[i], folded[i], title_folded)),
    );
    if p1 is Some {
        p1
    } else if p2 is Some {
        p2
    } else if p3 is Some {
        p3
    } else {
        p4
    }
}

/// The lower-case form of every title.
pub open spec fn folded_titles(cands: Seq<WindowCandidate>) -> Seq<Seq<char>> {
    Seq::new(cands.len(), |i: int| lower_of(cands[i].title@))
}

/// The text of every entry.
pub open spec fn views(v: Seq<String>) -> Seq<Seq<char>> {
    Seq::new(v.len(), |i: int| v[i]@)
}

/// A position as a mathematical integer.
pub open spec fn opt_usize(r: Option<usize>) -> Option<int> {
    match r {
        Some(i) => Some(i as int),
        None => None,
    }
}

/// Picks the window to capture among `cands`, given the lower-case form of each
/// title and of the searched title.
pub fn find_window_folded(
    cands: &Vec<WindowCandidate>,
    folded: &Vec<String>,
    title: &str,
    title_folded: &str,
    app: &str,
) -> (r: Option<usize>)
    requires
        folded.len() == cands.len(),
    ensures
        opt_usize(r) == primary_choice(cands@, views(folded@), title@, title_folded@, app@),
{
    let ghost fv = views(folded@);
    let n: usize = cands.len();
    let mut f1: Vec<bool> = Vec::new();
    let mut f2: Vec<bool> = Vec::new();
    let mut f3: Vec<bool> = Vec::new();
    let mut f4: Vec<bool> = Vec::new();
    let app_given = !app.is_empty();
    let mut i: usize = 0;
    while i < n
        invariant
            n == cands.len(),
            folded.len() == n,
            fv == views(folded@),
            app_given == (app@.len() > 0),
            i <= n,
            f1.len() == i,
            f2.len() == i,
            f3.len() == i,
            f4.len() == i,
            forall|k: int| 0 <= k < i ==> f1@[k] == by_app(cands@[k], app@),
            forall|k: int| 0 <= k < i ==> f2@[k] == by_title(cands@[k], title@),
            forall|k: int|
                0 <= k < i ==> f3@[k] == by_folded_title(cands@[k], fv[k], title_folded@),
            forall|k: int|
                0 <= k < i ==> f4@[k] == by_folded_part(cands@[k], fv[k], title_folded@),
        decreases n - i,
    {
        let c = &cands[i];
        let open = !c.is_minimized;
        f1.push(open && app_given && contains_text(&c.app_name, app));
        f2.push(open && same_text(&c.title, title));
        f3.push(open && same_text(&folded[i], title_folded));
        f4.push(open && contains_text(&folded[i], title_folded));
        i = i + 1;
    }
    assert(f1@ =~= Seq::new(cands@.len(), |k: int| by_app(cands@[k], app@)));
    assert(f2@ =~= Seq::new(cands@.len(), |k: int| by_title(cands@[k], title@)));
    assert(f3@ =~= Seq::new(
        cands@.len(),
        |k: int| by_folded_title(cands@[k], fv[k], title_folded@),
    ));
    assert(f4@ =~= Seq::new(
        cands@.len(),
        |k: int| by_folded_part(cands@[k], fv[k], title_folded@),
    ));
    let r1 = first_set(&f1);
    if r1.is_some() {
        return r1;
    }
    let r2 = first_set(&f2);
    if r2.is_some() {
        return r2;
    }
    let r3 = first_set(&f3);
    if r3.is_some() {
        return r3;
    }
    first_set(&f4)
}

/// Picks the window to capture among the primary source's windows: by application
/// name, then exact title, then lower-case title, then lower-case title part.
pub fn find_window(cands: &Vec<WindowCandidate>, title: &str, app: &str) -> (r: Option<usize>)
    ensures
        opt_usize(r) == primary_choice(
            cands@,
            folded_titles(cands@),
            title@,
            lower_of(title@),
            app@,
        ),
{
    let mut folded: Vec<String> = Vec::new();
    let mut i: usize = 0;
    while i < cands.len()
        invariant
            i <= cands.len(),
            folded.len() == i,
            forall|k: int| 0 <= k < i ==> folded@[k]@ == lower_of(cands@[k].title@),
        decreases cands.len() - i,
    {
        folded.push(lowercase(&cands[i].title));
        i = i + 1;
    }
    assert(views(folded@) =~= folded_titles(cands@));
    let title_folded = lowercase(title);
    find_window_folded(cands, &folded, title, &title_folded, app)
}


// ----- secondary source -----
/// Only normal-layer windows are eligible in the secondary source.
pub open spec fn is_normal(w: CgWindow) -> bool {
    w.layer == 0
}

/// The secondary source's passes, given the lower-case owner name (`owner`) and
/// window name (`name`) of the window, and of the search (`title_f`, `app_f`).
pub open spec fn cg_pass(
    pass: int,
    w: CgWindow,
    owner: Seq<char>,
    name: Seq<char>,
    title: Seq<char>,
    title_f: Seq<char>,
    app_f: Seq<char>,
) -> bool {
    is_normal(w) && if pass == 1 {
        owner == app_f && w.name@ == title
    } else if pass == 2 {
        seq_contains(owner, app_f) && w.name@ == title
    } else if pass == 3 {
        seq_contains(owner, app_f) && seq_contains(name, title_f)
    } else if pass == 4 {
        w.name@.len() > 0 && seq_contains(name, title_f)
    } else {
        owner == app_f && w.width > MIN_UNTITLED_EXTENT && w.height > MIN_UNTITLED_EXTENT
    }
}

/// Whether each window passes secondary pass `pass`.
pub open spec fn cg_flags(
    pass: int,
    ws: Seq<CgWindow>,
    owners: Seq<Seq<char>>,
    names: Seq<Seq<char>>,
    title: Seq<char>,
    title_f: Seq<char>,
    app_f: Seq<char>,
) -> Seq<bool> {
    Seq::new(ws.len(), |i: int| cg_pass(pass, ws[i], owners[i], names[i], title, title_f, app_f))
}

/// The window that the secondary source's five passes pick: the first match of the
/// first pass that matches anything.
pub open spec fn secondary_choice(
    ws: Seq<CgWindow>,
    owners: Seq<Seq<char>>,
    names: Seq<Seq<char>>,
    title: Seq<char>,
    title_f: Seq<char>,
    app_f: Seq<char>,
) -> Option<int> {
    let p1 = first_true(cg_flags(1, ws, owners, names, title, title_f, app_f));
    let p2 = first_true(cg_flags(2, ws, owners, names, title, title_f, app_f));
    let p3 = first_true(cg_flags(3, ws, owners, names, title, title_f, app_f));
    let p4 = first_true(cg_flags(4, ws, owners, names, title, title_f, app_f));
    let p5 = first_true(cg_flags(5, ws, owners, names, title, title_f, app_f));
    if p1 is Some {
        p1
    } else if p2 is Some {
        p2
    } else if p3 is Some {
        p3
    } else if p4 is Some {
        p4
    } else {
        p5
    }
}

/// Whether each window passes secondary pass `pass`.
fn cg_pass_flags(
    pass: u8,
    ws: &Vec<CgWindow>,
    owners: &Vec<String>,
    names: &Vec<String>,
    title: &str,
    title_f: &str,
    app_f: &str,
) -> (r: Vec<bool>)
    requires
        1 <= pass <= 5,
        owners.len() == ws.len(),
        names.len() == ws.len(),
    ensures
        r@ == cg_flags(pass as int, ws@, views(owners@), views(names@), title@, title_f@, app_f@),
{
    let mut out: Vec<bool> = Vec::new();
    let mut i: usize = 0;
    while i < ws.len()
        invariant
            1 <= pass <= 5,
            owners.len() == ws.len(),
            names.len() == ws.len(),
            i <= ws.len(),
            out.len() == i,
            forall|k: int|
                0 <= k < i ==> out@[k] == cg_pass(
                    pass as int,
                    ws@[k],
                    owners@[k]@,
                    names@[k]@,
                    title@,
                    title_f@,
                    app_f@,
                ),
        decreases ws.len() - i,
    {
        let w = &ws[i];
        let hit = w.layer == 0 && if pass == 1 {
            same_text(&owners[i], app_f) && same_text(&w.name, title)
        } else if pass == 2 {
            contains_text(&owners[i], app_f) && same_text(&w.name, title)
        } else if pass == 3 {
            contains_text(&owners[i], app_f) && contains_text(&names[i], title_f)
        } else if pass == 4 {
            !w.name.as_str().is_empty() && contains_text(&names[i], title_f)
        } else {
            same_text(&owners[i], app_f) && w.width > MIN_UNTITLED_EXTENT && w.height
                > MIN_UNTITLED_EXTENT
        };
        out.push(hit);
        i = i + 1;
    }
    assert(out@ =~= cg_flags(
        pass as int,
        ws@,
        views(owners@),
        views(names@),
        title@,
        title_f@,
        app_f@,
    ));
    out
}

/// Picks the window to capture among the secondary source's windows, given the
/// lower-case owner and window names, the searched title and its lower-case form,
/// and the lower-case application name.
pub fn find_window_cg_folded(
    ws: &Vec<CgWindow>,
    owners: &Vec<String>,
    names: &Vec<String>,
    title: &str,
    title_f: &str,
    app_f: &str,
) -> (r: Option<usize>)
    requires
        owners.len() == ws.len(),
        names.len() == ws.len(),
    ensures
        opt_usize(r) == secondary_choice(
            ws@,
            views(owners@),
            views(names@),
            title@,
            title_f@,
            app_f@,
        ),
{
    let mut pass: u8 = 1;
    while pass < 5
        invariant
            1 <= pass <= 5,
            owners.len() == ws.len(),
            names.len() == ws.len(),
            forall|p: int|
                1 <= p < pass ==> first_true(
                    cg_flags(p, ws@, views(owners@), views(names@), title@, title_f@, app_f@),
                ) is None,
        decreases 5 - pass,
    {
        let flags = cg_pass_flags(pass, ws, owners, names, title, title_f, app_f);
        let r = first_set(&flags);
        if r.is_some() {
            return r;
        }
        pass = pass + 1;
    }
    let flags = cg_pass_flags(5, ws, owners, names, title, title_f, app_f);
    first_set(&flags)
}

/// The lower-case owner name of every window.
pub open spec fn folded_owners(ws: Seq<CgWindow>) -> Seq<Seq<char>> {
    Seq::new(ws.len(), |i: int| lower_of(ws[i].owner_name@))
}

/// The lower-case window name of every window.
pub open spec fn folded_names(ws: Seq<CgWindow>) -> Seq<Seq<char>> {
    Seq::new(ws.len(), |i: int| lower_of(ws[i].name@))
}

/// Picks the window to capture among the secondary source's windows.
pub fn find_window_cg(ws: &Vec<CgWindow>, title: &str, app: &str) -> (r: Option<usize>)
    ensures
        opt_usize(r) == secondary_choice(
            ws@,
            folded_owners(ws@),
            folded_names(ws@),
            title@,
            lower_of(title@),
            lower_of(app@),
        ),
{
    let mut owners: Vec<String> = Vec::new();
    let mut names: Vec<String> = Vec::new();
    let mut i: usize = 0;
    while i < ws.len()
        invariant
            i <= ws.len(),
            owners.len() == i,
            names.len() == i,
            forall|k: int| 0 <= k < i ==> owners@[k]@ == lower_of(ws@[k].owner_name@),
            forall|k: int| 0 <= k < i ==> names@[k]@ == lower_of(ws@[k].name@),
        decreases ws.len() - i,
    {
        owners.push(lowercase(&ws[i].owner_name));
        names.push(lowercase(&ws[i].name));
        i = i + 1;
    }
    assert(views(owners@) =~= folded_owners(ws@));
    assert(views(names@) =~= folded_names(ws@));
    let title_f = lowercase(title);
    let app_f = lowercase(app);
    find_window_cg_folded(ws, &owners, &names, title, &title_f, &app_f)
}


// ----- outcome -----
/// Why no image could be taken.
pub enum CaptureError {
    /// No pass of either source matched; the search and how many windows each
    /// source listed.
    WindowNotFound { title: String, app: String, primary_count: usize, secondary_count: usize },
    /// The operating system hides other windows until screen recording is allowed.
    PermissionRequired,
    /// The platform's capture call failed.
    CaptureApiFailure(String),
}

/// What the permission failure tells the operator to do.
pub open spec fn permission_text() -> Seq<char> {
    "Screen Recording permission required. Please grant permission in: System Preferences > Privacy & Security > Screen Recording, then restart the app."@
}

/// What a plain miss reports: the search and the size of each listing.
pub open spec fn not_found_text(title: Seq<char>, app: Seq<char>, p: nat, s: nat) -> Seq<char> {
    "Window not found. Searched for title='"@ + title + "', app='"@ + app + "'. Found "@
        + decimal_of(p) + " primary and "@ + decimal_of(s) + " secondary windows."@
}

impl CaptureError {
    pub open spec fn message_spec(&self) -> Seq<char> {
        match self {
            CaptureError::WindowNotFound { title, app, primary_count, secondary_count } =>
                not_found_text(title@, app@, *primary_count as nat, *secondary_count as nat),
            CaptureError::PermissionRequired => permission_text(),
            CaptureError::CaptureApiFailure(reason) => "Failed to capture window image: "@
                + reason@,
        }
    }

    /// The text shown to the caller; the permission case names the setting to change.
    pub fn message(&self) -> (r: String)
        ensures
            r@ == self.message_spec(),
    {
        match self {
            CaptureError::WindowNotFound { title, app, primary_count, secondary_count } => {
                let mut m = join_text("Window not found. Searched for title='", title);
                m = join_text(&m, "', app='");
                m = join_text(&m, app);
                m = join_text(&m, "'. Found ");
                m = join_text(&m, &decimal_text(*primary_count));
                m = join_text(&m, " primary and ");
                m = join_text(&m, &decimal_text(*secondary_count));
                m = join_text(&m, " secondary windows.");
                m
            },
            CaptureError::PermissionRequired => {
                "Screen Recording permission required. Please grant permission in: System Preferences > Privacy & Security > Screen Recording, then restart the app.".to_string()
            },
            CaptureError::CaptureApiFailure(reason) => {
                join_text("Failed to capture window image: ", reason)
            },
        }
    }
}

/// The window belongs to the compositor / shell, which stays listed when screen
/// recording is not allowed.
pub open spec fn is_shell_window(c: WindowCandidate) -> bool {
    c.app_name@ == "Window Server"@ || c.title@ == "Menubar"@
}

/// The primary source listed at most one window, and only the shell's.
pub open spec fn permission_blocked_spec(cands: Seq<WindowCandidate>) -> bool {
    cands.len() <= 1 && forall|i: int| 0 <= i < cands.len() ==> is_shell_window(#[trigger] cands[i])
}

/// Whether the primary source's listing shows that screen recording is not allowed.
pub fn permission_blocked(cands: &Vec<WindowCandidate>) -> (r: bool)
    ensures
        r == permission_blocked_spec(cands@),
{
    if cands.len() > 1 {
        return false;
    }
    let mut i: usize = 0;
    while i < cands.len()
        invariant
            i <= cands.len(),
            forall|k: int| 0 <= k < i ==> is_shell_window(#[trigger] cands@[k]),
        decreases cands.len() - i,
    {
        let c = &cands[i];
        if !(same_text(&c.app_name, "Window Server") || same_text(&c.title, "Menubar")) {
            return false;
        }
        i = i + 1;
    }
    true
}

/// What the capture comes to once the primary source has matched nothing: the
/// secondary source's pick, else a permission failure or a miss.
pub open spec fn secondary_outcome(
    primary: Seq<WindowCandidate>,
    ws: Seq<CgWindow>,
    title: Seq<char>,
    app: Seq<char>,
    r: Result<usize, CaptureError>,
) -> bool {
    let choice = secondary_choice(
        ws,
        folded_owners(ws),
        folded_names(ws),
        title,
        lower_of(title),
        lower_of(app),
    );
    match r {
        Ok(i) => choice == Some(i as int),
        Err(CaptureError::PermissionRequired) => choice is None && permission_blocked_spec(primary),
        Err(CaptureError::WindowNotFound { title: t, app: a, primary_count, secondary_count }) =>
            choice is None && !permission_blocked_spec(primary) && t@ == title && a@ == app
                && primary_count == primary.len() && secondary_count == ws.len(),
        Err(CaptureError::CaptureApiFailure(_)) => false,
    }
}

/// Locates the window in the secondary source after the primary one matched
/// nothing; reports a permission failure apart from a plain miss.
pub fn locate_in_secondary(
    primary: &Vec<WindowCandidate>,
    ws: &Vec<CgWindow>,
    title: &str,
    app: &str,
) -> (r: Result<usize, CaptureError>)
    ensures
        secondary_outcome(primary@, ws@, title@, app@, r),
{
    match find_window_cg(ws, title, app) {
        Some(i) => Ok(i),
        None => {
            if permission_blocked(primary) {
                Err(CaptureError::PermissionRequired)
            } else {
                Err(
                    CaptureError::WindowNotFound {
                        title: title.to_owned(),
                        app: app.to_owned(),
                        primary_count: primary.len(),
                        secondary_count: ws.len(),
                    },
                )
            }
        },
    }
}

} // verus!
