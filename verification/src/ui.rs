//! Pieces of the user interface that carry decisions: the settings panels,
//! the header menu and what each of its entries asks for, and the layout of
//! the QR code shown for logging in on another device.
use vstd::prelude::*;
use crate::summary::{is_blank, lemma_trim_blank, trim_str};

verus! {

/// The settings panels.
#[derive(Clone, Debug, PartialEq, Eq, Structural)]
pub enum SettingsPanel {
    App,
    User,
    Room,
    Space,
    Members,
    Pinned,
}

/// The entries of the header menu.
#[derive(Clone, Copy, Debug, Eq, PartialEq, Hash, Structural)]
pub enum MenuAct {
    AppSettings,
    UserSettings,
    Logout,
    CreateRoom,
    CreateSpace,
    SpaceSettings,
    SpaceInvite,
}

/// What a menu entry asks the application to do.
#[derive(Clone, Debug, PartialEq, Eq, Structural)]
pub enum MenuMessage {
    OpenSettings(SettingsPanel),
    Logout,
    ToggleCreateRoom,
    ToggleCreateSpace,
    ToggleInviteToSpace,
}

impl MenuAct {
    /// The message a menu entry sends.
    pub fn message(&self) -> (m: MenuMessage)
        ensures
            m == match *self {
                MenuAct::AppSettings => MenuMessage::OpenSettings(SettingsPanel::App),
                MenuAct::UserSettings => MenuMessage::OpenSettings(SettingsPanel::User),
                MenuAct::Logout => MenuMessage::Logout,
                MenuAct::CreateRoom => MenuMessage::ToggleCreateRoom,
                MenuAct::CreateSpace => MenuMessage::ToggleCreateSpace,
                MenuAct::SpaceSettings => MenuMessage::OpenSettings(SettingsPanel::Space),
                MenuAct::SpaceInvite => MenuMessage::ToggleInviteToSpace,
            },
    {
        match self {
            MenuAct::AppSettings => MenuMessage::OpenSettings(SettingsPanel::App),
            MenuAct::UserSettings => MenuMessage::OpenSettings(SettingsPanel::User),
            MenuAct::Logout => MenuMessage::Logout,
            MenuAct::CreateRoom => MenuMessage::ToggleCreateRoom,
            MenuAct::CreateSpace => MenuMessage::ToggleCreateSpace,
            MenuAct::SpaceSettings => MenuMessage::OpenSettings(SettingsPanel::Space),
            MenuAct::SpaceInvite => MenuMessage::ToggleInviteToSpace,
        }
    }
}

/// The QR code (at the default error correction level) that encodes
/// `data`: its width in modules and, row by row, whether each module is
/// dark; `None` when the data does not fit in a QR code.
pub uninterp spec fn qr_encoding(data: Seq<u8>) -> Option<(usize, Seq<bool>)>;

/// Encodes `data` with `qrcode::QrCode::new`, and reads back the width and
/// the modules (`to_colors`, row by row). The contract claims that the
/// result is `qr_encoding(data)`, and that the code has width × width
/// modules, as the crate's source builds them.
#[verifier::external_body]
fn encode_qr(data: &[u8]) -> (r: Option<(usize, Vec<bool>)>)
    ensures
        match r {
            Some((w, d)) => qr_encoding(data@) == Some((w, d@)) && d@.len() == w * w,
            None => qr_encoding(data@) is None,
        },
{
    match qrcode::QrCode::new(data) {
        Ok(code) => Some((code.width(), code.to_colors().into_iter().map(|m| m == qrcode::Color::Dark).collect())),
        Err(_) => None,
    }
}

/// The entries of the user menu in the header: application settings, user
/// settings and logging out, shown only when a user is logged in.
pub fn user_menu(logged_in: bool) -> (items: Vec<MenuAct>)
    ensures
        items@ == if logged_in {
            seq![MenuAct::AppSettings, MenuAct::UserSettings, MenuAct::Logout]
        } else {
            Seq::empty()
        },
{
    if logged_in {
        vec![MenuAct::AppSettings, MenuAct::UserSettings, MenuAct::Logout]
    } else {
        Vec::new()
    }
}

/// The entries of the "create" menu under the space switcher.
pub fn create_menu() -> (items: Vec<MenuAct>)
    ensures
        items@ == seq![MenuAct::CreateRoom, MenuAct::CreateSpace],
{
    vec![MenuAct::CreateRoom, MenuAct::CreateSpace]
}

/// What the form that names a new room or space asks for.
#[derive(Clone, Debug, PartialEq, Eq)]
pub enum CreateRequest {
    /// Create a room with this name.
    Room(String),
    /// Create a space with this name.
    Space(String),
}

/// The form for naming a new room or space, while one is being created.
pub struct CreationForm {
    /// A space is being created (else a room).
    pub for_space: bool,
    /// What "Create" (or Enter) asks for; none while the name is blank, and
    /// the button then explains that a name is needed.
    pub submit: Option<CreateRequest>,
    /// "Cancel" closes the form: the menu entry that opened it.
    pub cancel: MenuMessage,
}

/// The creation form for the typed `name`: none when neither a room nor a
/// space is being created; a room when both are.
pub fn creation_form(creating_room: bool, creating_space: bool, name: &str) -> (f: Option<CreationForm>)
    ensures
        !creating_room && !creating_space ==> f is None,
        creating_room || creating_space ==> (f matches Some(form) && {
            &&& form.for_space == !creating_room
            &&& form.cancel == if creating_room {
                MenuMessage::ToggleCreateRoom
            } else {
                MenuMessage::ToggleCreateSpace
            }
            &&& match form.submit {
                None => is_blank(name@),
                Some(CreateRequest::Room(n)) => !is_blank(name@) && creating_room && n@ == name@,
                Some(CreateRequest::Space(n)) => !is_blank(name@) && !creating_room && n@ == name@,
            }
        }),
{
    if !creating_room && !creating_space {
        return None;
    }
    proof {
        lemma_trim_blank(name@);
    }
    let blank = trim_str(name).is_empty();
    let submit = if blank {
        None
    } else if creating_room {
        Some(CreateRequest::Room(name.to_owned()))
    } else {
        Some(CreateRequest::Space(name.to_owned()))
    };
    let cancel = if creating_room {
        MenuMessage::ToggleCreateRoom
    } else {
        MenuMessage::ToggleCreateSpace
    };
    Some(CreationForm { for_space: !creating_room, submit, cancel })
}

/// A widget that draws a URL as a QR code.
pub struct QrCodeWidget {
    url: String,
}

/// The cells of a QR code drawn with a quiet zone of two cells around it.
pub struct QrGrid {
    /// Cells per side, quiet zone included.
    pub side_cells: usize,
    /// The dark cells, as (column, row), row by row.
    pub dark: Vec<(usize, usize)>,
}

/// The dark cells of a `w`-wide code with modules `d`, shifted by the quiet
/// zone, for the rows below `rows` (and in row `rows`, the columns below
/// `cols`).
pub open spec fn dark_cells(w: int, d: Seq<bool>, rows: int, cols: int) -> Seq<(usize, usize)>
    decreases rows, cols,
{
    if rows <= 0 && cols <= 0 {
        seq![]
    } else if cols <= 0 {
        dark_cells(w, d, rows - 1, w)
    } else {
        let x = cols - 1;
        let y = rows;
        let before = dark_cells(w, d, rows, cols - 1);
        if d[y * w + x] {
            before.push(((x + 2) as usize, (y + 2) as usize))
        } else {
            before
        }
    }
}

impl View for QrCodeWidget {
    type V = Seq<char>;

    closed spec fn view(&self) -> Seq<char> {
        self.url@
    }
}

impl QrCodeWidget {
    /// A widget for `url`.
    pub fn new(url: String) -> (r: Self)
        ensures
            r@ == url@,
    {
        Self { url }
    }

    /// The cells to draw: `None` when the URL cannot be encoded; else a grid
    /// of the code's width plus a quiet zone of two cells on each side, with
    /// the dark modules in it.
    pub fn grid(&self) -> (r: Option<QrGrid>)
        ensures
            match qr_encoding(encode_utf8_of(self@)) {
                None => r is None,
                Some((w, d)) => r matches Some(g) && g.side_cells == w + 4 && g.dark@ == dark_cells(
                    w as int,
                    d,
                    w as int,
                    0,
                ),
            },
    {
        let bytes = self.url.as_str().as_bytes();
        match encode_qr(bytes) {
            None => None,
            Some((w, d)) => {
                let n = d.len();
                assert(w + 4 <= usize::MAX) by (nonlinear_arith)
                    requires
                        d@.len() == w * w,
                        n == d@.len(),
                        n <= usize::MAX,
                {
                    if w > 4 {
                        assert(w * w >= 5 * w);
                    }
                }
                let mut dark: Vec<(usize, usize)> = Vec::new();
                let mut y: usize = 0;
                while y < w
                    invariant
                        y <= w,
                        w + 4 <= usize::MAX,
                        d@.len() == w * w,
                        w * w <= usize::MAX,
                        dark@ == dark_cells(w as int, d@, y as int, 0),
                    decreases w - y,
                {
                    let mut x: usize = 0;
                    while x < w
                        invariant
                            x <= w,
                            y < w,
                            w + 4 <= usize::MAX,
                            d@.len() == w * w,
                            w * w <= usize::MAX,
                            dark@ == dark_cells(w as int, d@, y as int, x as int),
                        decreases w - x,
                    {
                        assert(y * w + x < w * w && y * w <= w * w) by (nonlinear_arith)
                            requires
                                x < w,
                                y < w,
                        ;
                        if d[y * w + x] {
                            dark.push((x + 2, y + 2));
                        }
                        x = x + 1;
                    }
                    assert(dark_cells(w as int, d@, y + 1, 0) == dark_cells(w as int, d@, y as int, w as int));
                    y = y + 1;
                }
                Some(QrGrid { side_cells: w + 4, dark })
            },
        }
    }
}

/// The UTF-8 bytes of a text.
pub open spec fn encode_utf8_of(s: Seq<char>) -> Seq<u8> {
    vstd::utf8::encode_utf8(s)
}

} // verus!
