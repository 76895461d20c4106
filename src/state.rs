use vstd::prelude::*;

use vstd::string::StringExecFns;

use crate::display::DisplayImage;

verus! {

/// The user actions of the render viewer.
#[derive(Debug, Clone)]
pub enum ApplicationMessage {
    /// The file name field was edited to the given text.
    FileNameChanged(String),
    /// The save button was pressed.
    SaveFilePressed,
    /// The render button was pressed.
    RenderPressed,
}

/// What the viewer reports after handling a message.
#[derive(Debug, Clone, Copy, PartialEq, Eq, Structural)]
pub enum Effect {
    /// A render was requested; the image is left as it is.
    RenderRequested,
    /// The file name, and with it the output path, changed.
    FileNameChanged,
    /// Saving to the current output path was requested; nothing is written.
    SaveRequested,
}

/// The output path for a file name: the name with the `.exr` extension.
pub open spec fn exr_path(name: Seq<char>) -> Seq<char> {
    name + ".exr"@
}

/// The viewer's state: the chosen file name, its output path, and the
/// rendered display image.
#[derive(Debug)]
pub struct ApplicationState {
    pub file_name: String,
    pub file_name_with_ext: String,
    pub rendered_image: DisplayImage,
}

fn with_exr_extension(name: &String) -> (r: String)
    ensures
        r@ == exr_path(name@),
{
    let mut path = name.clone();
    path.append(".exr");
    path
}

impl ApplicationState {
    /// The output path always follows the file name.
    pub open spec fn wf(&self) -> bool {
        self.file_name_with_ext@ == exr_path(self.file_name@)
    }

    /// The initial state: the default file name `sample_file` and the given
    /// rendered image.
    pub fn new(rendered_image: DisplayImage) -> (s: ApplicationState)
        ensures
            s.wf(),
            s.file_name@ == "sample_file"@,
            s.rendered_image == rendered_image,
    {
        let file_name = String::from_str("sample_file");
        let file_name_with_ext = with_exr_extension(&file_name);
        ApplicationState { file_name, file_name_with_ext, rendered_image }
    }

    /// The window title.
    pub fn title(&self) -> (t: String)
        ensures
            t@ == "Iced Sample Render image App"@,
    {
        String::from_str("Iced Sample Render image App")
    }

    /// Applies a message. Editing the file name replaces it and recomputes the
    /// output path; the buttons change nothing and only report what was asked.
    pub fn update(&mut self, message: ApplicationMessage) -> (e: Effect)
        requires
            old(self).wf(),
        ensures
            final(self).wf(),
            final(self).rendered_image == old(self).rendered_image,
            match message {
                ApplicationMessage::FileNameChanged(name) => {
                    &&& e == Effect::FileNameChanged
                    &&& final(self).file_name@ == name@
                }
                ApplicationMessage::SaveFilePressed => {
                    &&& e == Effect::SaveRequested
                    &&& final(self).file_name@ == old(self).file_name@
                }
                ApplicationMessage::RenderPressed => {
                    &&& e == Effect::RenderRequested
                    &&& final(self).file_name@ == old(self).file_name@
                }
            },
    {
        match message {
            ApplicationMessage::RenderPressed => Effect::RenderRequested,
            ApplicationMessage::FileNameChanged(new_name) => {
                self.file_name_with_ext = with_exr_extension(&new_name);
                self.file_name = new_name;
                Effect::FileNameChanged
            },
            ApplicationMessage::SaveFilePressed => Effect::SaveRequested,
        }
    }
}

} // verus!
