//! The state behind the window: the calibration root that the side panel shows
//! and replaces, and the scene that the central view draws.

use crate::gl::{GlCommand, GlCommandView};
use crate::scene::{plan_view, Scene3d, Scene3dView, SceneError};
use std::path::PathBuf;
use vstd::prelude::*;

verus! {

/// `std::path::PathBuf`. A path is stored and handed back as it came; nothing
/// here looks inside one.
#[verifier::external_type_specification]
#[verifier::external_body]
pub struct ExPathBuf(PathBuf);

/// The stem of a path as text: what `Path::file_stem` gives for it, where that
/// exists and is valid Unicode. It is read off the path alone; no file system
/// is consulted.
pub uninterp spec fn path_stem(path: PathBuf) -> Option<Seq<char>>;

/// The display form of a path: the text that `Path::display` prints for it,
/// with whatever is not Unicode replaced.
pub uninterp spec fn path_shown(path: PathBuf) -> Seq<char>;

/// `Path::file_stem`, as text: the last component of `path` without its
/// extension, if `path` has such a component and it is valid Unicode.
///
/// Trusted: that the call returns, and that what it returns depends on `path`
/// alone, so that it can go by the name [`path_stem`]. Nothing more is claimed
/// of it.
#[verifier::external_body]
fn file_stem_text(path: &PathBuf) -> (stem: Option<String>)
    ensures
        stem.deep_view() == path_stem(*path),
{
    path.file_stem().and_then(|stem| stem.to_str()).map(|stem| stem.to_string())
}

/// `Path::display`, as text: `path` with whatever is not Unicode replaced.
///
/// Trusted: that the call returns, and that what it returns depends on `path`
/// alone, so that it can go by the name [`path_shown`]. Nothing more is claimed
/// of it.
#[verifier::external_body]
fn display_text(path: &PathBuf) -> (text: String)
    ensures
        text@ == path_shown(*path),
{
    path.display().to_string()
}

/// What every label of the calibration root starts with.
pub const LABEL_PREFIX: &'static str = "Path: ";

/// The label for a root with the given stem, or, where it has none, with the
/// given display form.
pub open spec fn root_label_text(stem: Option<Seq<char>>, shown: Seq<char>) -> Seq<char> {
    LABEL_PREFIX@ + match stem {
        Some(stem) => stem,
        None => shown,
    }
}

/// The characters of a stem, if there is one.
pub open spec fn stem_text(stem: Option<&str>) -> Option<Seq<char>> {
    match stem {
        Some(stem) => Some(stem@),
        None => None,
    }
}

/// The label of the button that shows the calibration root: `Path: ` and the
/// root's stem, or `Path: ` and the whole root as displayed where no stem can
/// be had.
pub fn root_label(stem: Option<&str>, shown: &str) -> (label: String)
    ensures
        label@ == root_label_text(stem_text(stem), shown@),
{
    let mut label = String::from_str(LABEL_PREFIX);
    match stem {
        Some(stem) => label.append(stem),
        None => label.append(shown),
    }
    label
}

/// Why a command of the side panel was not carried out.
#[derive(Clone, Copy, Debug, PartialEq, Eq)]
pub enum CommandError {
    /// The command exists and does nothing yet.
    NotImplemented,
}

/// The calibrator's state: the scene of its central view and the root
/// directory of the calibration data.
#[derive(Debug)]
pub struct CalibratorGui {
    scene_3d: Scene3d,
    calb_root_path: PathBuf,
}

/// What a [`CalibratorGui`] is.
pub struct CalibratorGuiView {
    pub scene_3d: Scene3dView,
    pub calb_root_path: PathBuf,
}

impl CalibratorGuiView {
    /// The label of the button that shows the root: `Path: ` and the root's
    /// stem, or `Path: ` and the root's display form where it has no stem.
    pub open spec fn path_text(self) -> Seq<char> {
        root_label_text(path_stem(self.calb_root_path), path_shown(self.calb_root_path))
    }

    /// The state after the folder dialog closed: a chosen folder replaces the
    /// root, a cancelled dialog changes nothing.
    pub open spec fn folder_picked(self, picked: Option<PathBuf>) -> CalibratorGuiView {
        match picked {
            Some(folder) => CalibratorGuiView { calb_root_path: folder, ..self },
            None => self,
        }
    }

    /// The state after the window closed, and the calls that release the
    /// scene: with a graphics context at hand a live scene is destroyed;
    /// otherwise nothing happens.
    pub open spec fn on_exit(self, gl_present: bool) -> (CalibratorGuiView, Seq<GlCommandView>) {
        if gl_present && !self.scene_3d.destroyed {
            (
                CalibratorGuiView { scene_3d: self.scene_3d.destroy().0, ..self },
                self.scene_3d.destroy_plan(),
            )
        } else {
            (self, Seq::empty())
        }
    }
}

impl View for CalibratorGui {
    type V = CalibratorGuiView;

    closed spec fn view(&self) -> CalibratorGuiView {
        CalibratorGuiView { scene_3d: self.scene_3d@, calb_root_path: self.calb_root_path }
    }
}

impl CalibratorGui {
    /// The state at startup: the root that was stored when the window last
    /// closed, and the scene that was just built.
    pub fn new(calb_root_path: PathBuf, scene_3d: Scene3d) -> (gui: CalibratorGui)
        ensures
            gui@ == (CalibratorGuiView { scene_3d: scene_3d@, calb_root_path }),
    {
        CalibratorGui { scene_3d, calb_root_path }
    }

    /// The root directory of the calibration data.
    pub fn calb_root_path(&self) -> (path: &PathBuf)
        ensures
            *path == self@.calb_root_path,
    {
        &self.calb_root_path
    }

    /// The scene of the central view.
    pub fn scene_3d(&self) -> (scene: &Scene3d)
        ensures
            scene@ == self@.scene_3d,
    {
        &self.scene_3d
    }

    /// The label of the button that shows the calibration root: [`root_label`]
    /// of the root's stem and of its display form.
    pub fn path_text(&self) -> (label: String)
        ensures
            label@ == self@.path_text(),
    {
        let stem = file_stem_text(&self.calb_root_path);
        let shown = display_text(&self.calb_root_path);
        match &stem {
            Some(stem) => root_label(Some(stem.as_str()), shown.as_str()),
            None => root_label(None, shown.as_str()),
        }
    }

    /// Takes what the folder dialog returned: a chosen folder becomes the
    /// root, unexamined; `None`, a cancelled dialog, leaves the root as it is.
    pub fn folder_picked(&mut self, picked: Option<PathBuf>)
        ensures
            final(self)@ == old(self)@.folder_picked(picked),
    {
        match picked {
            Some(folder) => {
                self.calb_root_path = folder;
            },
            None => {},
        }
    }

    /// The command behind "Begin recording". Recording does not exist yet: the
    /// command always answers [`CommandError::NotImplemented`] and changes
    /// nothing.
    pub fn begin_recording(&self) -> (answer: Result<(), CommandError>)
        ensures
            answer == Err::<(), _>(CommandError::NotImplemented),
    {
        Err(CommandError::NotImplemented)
    }

    /// The calls that draw the central view for one frame, at the angle whose
    /// IEEE-754 bit pattern is `angle_bits`; a refusal once the scene was
    /// destroyed.
    pub fn paint_view3d(&self, angle_bits: u32) -> (answer: Result<Vec<GlCommand>, SceneError>)
        ensures
            plan_view(answer) == self@.scene_3d.paint(angle_bits),
    {
        self.scene_3d.paint(angle_bits)
    }

    /// Called when the window closes. With a graphics context at hand
    /// (`gl_present`) a live scene is destroyed and the calls that release it
    /// are handed out; without one, or when the scene was destroyed before,
    /// nothing changes and no call is made.
    pub fn on_exit(&mut self, gl_present: bool) -> (commands: Vec<GlCommand>)
        ensures
            (final(self)@, commands.deep_view()) == old(self)@.on_exit(gl_present),
    {
        if gl_present {
            match self.scene_3d.destroy() {
                Ok(commands) => {
                    return commands;
                },
                Err(_) => {},
            }
        }
        let commands: Vec<GlCommand> = Vec::new();
        assert(commands.deep_view() =~= Seq::empty());
        commands
    }
}

/// What the button shows follows the selection. A root with a stem is shown by
/// its stem and a root without one by its display form; after a folder was
/// chosen the label is that of the chosen folder, and after a cancelled dialog
/// it is what it was.
pub proof fn lemma_label_follows_selection(gui: CalibratorGuiView, picked: Option<PathBuf>)
    ensures
        path_stem(gui.calb_root_path) matches Some(stem) ==> gui.path_text() == LABEL_PREFIX@
            + stem,
        path_stem(gui.calb_root_path) is None ==> gui.path_text() == LABEL_PREFIX@ + path_shown(
            gui.calb_root_path,
        ),
        picked matches Some(folder) ==> gui.folder_picked(picked).path_text() == root_label_text(
            path_stem(folder),
            path_shown(folder),
        ),
        picked is None ==> gui.folder_picked(picked).path_text() == gui.path_text(),
        gui.folder_picked(picked).scene_3d == gui.scene_3d,
{
}

} // verus!
