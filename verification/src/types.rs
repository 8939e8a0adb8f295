//! Package records and the state wrapper for remotely fetched collections.

use vstd::prelude::*;

verus! {

/// The two package categories the session manages; each has its own identity
/// key and its own command flag.
#[derive(Debug, Clone, Copy, PartialEq, Eq, Structural)]
pub enum PackageKind {
    Formula,
    Cask,
}

/// A remotely fetched collection: not requested yet, in flight, arrived, or
/// failed with a human-readable reason.
#[derive(Debug, Clone)]
pub enum RemoteData<T> {
    NotLoaded,
    Loading,
    Loaded(T),
    Failed(String),
}

/// Model of [`RemoteData`], with the failure reason as a character sequence.
#[verifier::ext_equal]
pub enum RemoteDataView<T> {
    NotLoaded,
    Loading,
    Loaded(T),
    Failed(Seq<char>),
}

impl<T: DeepView> View for RemoteData<T> {
    type V = RemoteDataView<T::V>;

    open spec fn view(&self) -> Self::V {
        match self {
            RemoteData::NotLoaded => RemoteDataView::NotLoaded,
            RemoteData::Loading => RemoteDataView::Loading,
            RemoteData::Loaded(d) => RemoteDataView::Loaded(d.deep_view()),
            RemoteData::Failed(reason) => RemoteDataView::Failed(reason@),
        }
    }
}

/// The version block of a formula-like record.
#[derive(Debug, Clone)]
pub struct Versions {
    pub stable: Option<String>,
    pub head: Option<String>,
}

/// Model of [`Versions`].
#[verifier::ext_equal]
pub struct VersionsView {
    pub stable: Option<Seq<char>>,
    pub head: Option<Seq<char>>,
}

impl View for Versions {
    type V = VersionsView;

    open spec fn view(&self) -> VersionsView {
        VersionsView { stable: self.stable.deep_view(), head: self.head.deep_view() }
    }
}

impl DeepView for Versions {
    type V = VersionsView;

    open spec fn deep_view(&self) -> VersionsView {
        self.view()
    }
}

/// A formula-like record of the remote index; its identity key is `name`.
#[derive(Debug, Clone)]
pub struct FormulaInfo {
    pub name: String,
    pub full_name: String,
    pub desc: String,
    pub homepage: String,
    pub versions: Versions,
    pub license: Option<String>,
    pub dependencies: Vec<String>,
    pub tap: String,
}

/// Model of [`FormulaInfo`].
#[verifier::ext_equal]
pub struct FormulaInfoView {
    pub name: Seq<char>,
    pub full_name: Seq<char>,
    pub desc: Seq<char>,
    pub homepage: Seq<char>,
    pub versions: VersionsView,
    pub license: Option<Seq<char>>,
    pub dependencies: Seq<Seq<char>>,
    pub tap: Seq<char>,
}

impl View for FormulaInfo {
    type V = FormulaInfoView;

    open spec fn view(&self) -> FormulaInfoView {
        FormulaInfoView {
            name: self.name@,
            full_name: self.full_name@,
            desc: self.desc@,
            homepage: self.homepage@,
            versions: self.versions@,
            license: self.license.deep_view(),
            dependencies: self.dependencies.deep_view(),
            tap: self.tap@,
        }
    }
}

impl DeepView for FormulaInfo {
    type V = FormulaInfoView;

    open spec fn deep_view(&self) -> FormulaInfoView {
        self.view()
    }
}

/// A cask-like record of the remote index; its identity key is `token`.
#[derive(Debug, Clone)]
pub struct CaskInfo {
    pub token: String,
    pub name: Vec<String>,
    pub desc: String,
    pub homepage: String,
    pub version: String,
    pub auto_updates: Option<bool>,
}

/// Model of [`CaskInfo`].
#[verifier::ext_equal]
pub struct CaskInfoView {
    pub token: Seq<char>,
    pub name: Seq<Seq<char>>,
    pub desc: Seq<char>,
    pub homepage: Seq<char>,
    pub version: Seq<char>,
    pub auto_updates: Option<bool>,
}

impl View for CaskInfo {
    type V = CaskInfoView;

    open spec fn view(&self) -> CaskInfoView {
        CaskInfoView {
            token: self.token@,
            name: self.name.deep_view(),
            desc: self.desc@,
            homepage: self.homepage@,
            version: self.version@,
            auto_updates: self.auto_updates,
        }
    }
}

impl DeepView for CaskInfo {
    type V = CaskInfoView;

    open spec fn deep_view(&self) -> CaskInfoView {
        self.view()
    }
}

/// Pushing one element onto a vector pushes its model onto the deep view.
pub(crate) proof fn lemma_deep_view_push<T: DeepView>(v1: Vec<T>, v2: Vec<T>, x: T)
    requires
        v2@ == v1@.push(x),
    ensures
        v2.deep_view() =~= v1.deep_view().push(x.deep_view()),
{
    let d1 = v1.deep_view();
    let d2 = v2.deep_view();
    assert forall|i: int| 0 <= i < d2.len() implies d2[i] == d1.push(x.deep_view())[i] by {
        if i < d1.len() {
            assert(v2@[i] == v1@[i]);
        } else {
            assert(v2@[i] == x);
        }
    }
}

} // verus!
