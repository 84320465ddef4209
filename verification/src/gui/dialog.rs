//! A dialog that is open or closed, and what a dialog can tell about itself.

use vstd::prelude::*;
pub use self::HaveKind as IHaveKind;

verus! {

/// A dialog with a title.
pub trait IDialog {
    spec fn spec_title(&self) -> Seq<char>;

    fn title(&self) -> (res: String)
        ensures
            res@ == self.spec_title();
}

/// A dialog opened for one kind of event, which it remembers.
pub trait HaveKind {
    type Kind;

    spec fn spec_kind(&self) -> Self::Kind;

    fn kind(&self) -> (res: &Self::Kind)
        ensures
            *res == self.spec_kind();
}

/// A dialog that is either shown, holding its content, or closed.
pub struct Dialog<T>(Option<T>);

impl<T> View for Dialog<T> {
    type V = Option<T>;

    closed spec fn view(&self) -> Option<T> {
        self.0
    }
}

impl<T> Dialog<T> {
    /// A dialog shown with `dialog` as its content.
    pub fn new(dialog: T) -> (res: Dialog<T>)
        ensures
            res@ == Some(dialog),
    {
        Dialog(Some(dialog))
    }

    /// A closed dialog.
    pub fn closed() -> (res: Dialog<T>)
        ensures
            res@ == None::<T>,
    {
        Dialog(None)
    }

    pub fn close(&mut self)
        ensures
            final(self)@ == None::<T>,
    {
        self.0 = None;
    }

    /// Closes the dialog and gives its content, if it was shown.
    pub fn take(&mut self) -> (res: Option<T>)
        ensures
            res == old(self)@,
            final(self)@ == None::<T>,
        no_unwind
    {
        let mut content = None;
        std::mem::swap(&mut content, &mut self.0);
        content
    }

    pub fn is_open(&self) -> (res: bool)
        ensures
            res == self@ is Some,
    {
        self.0.is_some()
    }

    /// The content of the dialog, when it is shown.
    pub fn as_ref(&self) -> (res: Option<&T>)
        ensures
            res matches Some(d) ==> self@ == Some(*d),
            res is None ==> self@ is None,
    {
        match &self.0 {
            Some(d) => Some(d),
            None => None,
        }
    }

    /// The content of the dialog, when it is shown, to be changed in place.
    pub fn as_mut(&mut self) -> (res: Option<&mut T>)
        ensures
            res matches Some(d) ==> old(self)@ == Some(*d) && final(self)@ == Some(*final(d)),
            res is None ==> old(self)@ is None && final(self)@ is None,
    {
        match &mut self.0 {
            Some(d) => Some(d),
            None => None,
        }
    }
}

impl<T: IDialog> Dialog<T> {
    /// The title of the dialog, when it is shown.
    pub fn title(&self) -> (res: Option<String>)
        ensures
            res matches Some(t) ==> self@ matches Some(d) && t@ == d.spec_title(),
            res is None ==> self@ is None,
    {
        match &self.0 {
            Some(d) => Some(d.title()),
            None => None,
        }
    }
}

impl<T: HaveKind> Dialog<T> {
    /// The kind of the dialog, when it is shown.
    pub fn kind(&self) -> (res: Option<&T::Kind>)
        ensures
            res matches Some(k) ==> self@ matches Some(d) && *k == d.spec_kind(),
            res is None ==> self@ is None,
    {
        match &self.0 {
            Some(d) => Some(d.kind()),
            None => None,
        }
    }
}

impl<T> Default for Dialog<T> {
    /// A closed dialog.
    fn default() -> (res: Dialog<T>)
        ensures
            res@ == None::<T>,
    {
        Dialog(None)
    }
}

impl<T> From<T> for Dialog<T> {
    /// The dialog shown with `value` as its content.
    fn from(value: T) -> (res: Dialog<T>) {
        Dialog(Some(value))
    }
}

impl<T> vstd::std_specs::convert::FromSpecImpl<T> for Dialog<T> {
    open spec fn obeys_from_spec() -> bool {
        true
    }

    closed spec fn from_spec(v: T) -> Dialog<T> {
        Dialog(Some(v))
    }
}

/// A dialog made from a content shows that content.
pub proof fn lemma_dialog_from_shows<T>(v: T)
    ensures
        <Dialog<T> as vstd::std_specs::convert::FromSpec<T>>::from_spec(v)@ == Some(v),
{
}

} // verus!
