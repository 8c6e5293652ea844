use vstd::prelude::*;

verus! {

/// The mathematical model of one document-head declaration.
pub enum HeadTagModel {
    /// The application stylesheet.
    Stylesheet { href: Seq<char> },
    /// A `<link>` resource with its relation and target.
    Link { rel: Seq<char>, href: Seq<char>, crossorigin: bool },
    /// The document title.
    Title { text: Seq<char> },
}

/// One document-head declaration.
pub enum HeadTag {
    /// The application stylesheet.
    Stylesheet { href: String },
    /// A `<link>` resource with its relation and target.
    Link { rel: String, href: String, crossorigin: bool },
    /// The document title.
    Title { text: String },
}

impl View for HeadTag {
    type V = HeadTagModel;

    open spec fn view(&self) -> HeadTagModel {
        match self {
            HeadTag::Stylesheet { href } => (HeadTagModel::Stylesheet { href: href@ }),
            HeadTag::Link { rel, href, crossorigin } => (HeadTagModel::Link {
                rel: rel@,
                href: href@,
                crossorigin: *crossorigin,
            }),
            HeadTag::Title { text } => (HeadTagModel::Title { text: text@ }),
        }
    }
}

/// The document-head metadata registry: the tags declared so far, in
/// declaration order. Components only ever add to it.
pub struct HeadRegistry {
    /// The declared tags in declaration order.
    pub tags: Vec<HeadTag>,
}

impl View for HeadRegistry {
    type V = Seq<HeadTagModel>;

    open spec fn view(&self) -> Seq<HeadTagModel> {
        self.tags@.map_values(|t: HeadTag| t@)
    }
}

impl HeadRegistry {
    /// A fresh registry, as provided at the root of a render tree.
    pub fn new() -> (r: HeadRegistry)
        ensures
            r@ =~= Seq::<HeadTagModel>::empty(),
    {
        HeadRegistry { tags: Vec::new() }
    }

    /// Declare one tag. The registry is additive only: nothing is replaced
    /// or removed.
    pub fn declare(&mut self, tag: HeadTag)
        ensures
            final(self)@ =~= old(self)@.push(tag@),
    {
        self.tags.push(tag);
    }
}

/// The head resources the application declares: its stylesheet, the font
/// preconnect and stylesheet links, and the document title.
pub open spec fn spec_app_head() -> Seq<HeadTagModel> {
    seq![
        HeadTagModel::Stylesheet { href: "/pkg/homepage.css"@ },
        HeadTagModel::Link {
            rel: "preconnect"@,
            href: "https://fonts.googleapis.com"@,
            crossorigin: false,
        },
        HeadTagModel::Link {
            rel: "preconnect"@,
            href: "https://fonts.gstatic.com"@,
            crossorigin: true,
        },
        HeadTagModel::Link {
            rel: "stylesheet"@,
            href: "https://fonts.googleapis.com/css2?family=Kaisei+Opti:wght@400;700&family=Roboto:wght@100..900&display=swap"@,
            crossorigin: false,
        },
        HeadTagModel::Title { text: "ようこそ"@ },
    ]
}

/// Declares the application's fixed head resources. The registration is
/// additive and not idempotent, so it must run exactly once per render tree:
/// the empty-registry precondition is that guard.
pub fn install_app_head(reg: &mut HeadRegistry)
    requires
        old(reg)@ == Seq::<HeadTagModel>::empty(),
    ensures
        final(reg)@ =~= spec_app_head(),
{
    reg.declare(HeadTag::Stylesheet { href: "/pkg/homepage.css".to_owned() });
    reg.declare(HeadTag::Link {
        rel: "preconnect".to_owned(),
        href: "https://fonts.googleapis.com".to_owned(),
        crossorigin: false,
    });
    reg.declare(HeadTag::Link {
        rel: "preconnect".to_owned(),
        href: "https://fonts.gstatic.com".to_owned(),
        crossorigin: true,
    });
    reg.declare(HeadTag::Link {
        rel: "stylesheet".to_owned(),
        href: "https://fonts.googleapis.com/css2?family=Kaisei+Opti:wght@400;700&family=Roboto:wght@100..900&display=swap"
            .to_owned(),
        crossorigin: false,
    });
    reg.declare(HeadTag::Title { text: "ようこそ".to_owned() });
}

} // verus!
