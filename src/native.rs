//! The native dialog builder of rfd. Its configuration is opaque here: the
//! library keeps its own model of it beside each builder (see `dialog`).
use vstd::prelude::*;

verus! {

#[verifier::external_type_specification]
#[verifier::external_body]
pub struct ExFileDialog(rfd::FileDialog);

/// Relies on `rfd::FileDialog::new`: a builder with nothing configured.
#[verifier::external_body]
pub(crate) fn new_native() -> (r: rfd::FileDialog) {
    rfd::FileDialog::new()
}

/// Relies on `rfd::FileDialog::set_directory`, applied to a copy of `d`.
#[verifier::external_body]
pub(crate) fn native_with_directory(d: &rfd::FileDialog, path: &str) -> (r: rfd::FileDialog) {
    d.clone().set_directory(path)
}

/// Relies on `rfd::FileDialog::add_filter`, applied to a copy of `d`.
#[verifier::external_body]
pub(crate) fn native_with_filter(
    d: &rfd::FileDialog,
    name: &str,
    extensions: &Vec<String>,
) -> (r: rfd::FileDialog) {
    d.clone().add_filter(name, extensions.as_slice())
}

/// Relies on `Clone` of `rfd::FileDialog`: a second builder, configured as
/// `d` is.
#[verifier::external_body]
pub(crate) fn native_copy(d: &rfd::FileDialog) -> (r: rfd::FileDialog) {
    d.clone()
}

} // verus!
