use vstd::prelude::*;

use crate::types::ProfileInfo;

verus! {

/// Properties of the article metadata panel, handed down by the article page.
#[derive(Clone, Debug)]
pub struct Props {
    pub slug: String,
    /// Whether the reader may edit or delete the article.
    pub can_modify: bool,
    pub author: ProfileInfo,
    pub created_at: String,
}

/// The panel has no messages of its own: the one there is changes nothing.
pub enum Msg {
    Ignore,
}

/// What the panel shows, and what it hands to its edit and delete actions.
pub struct ArticleMetaView {
    /// Address of the author's picture.
    pub image: String,
    /// The author's name: the picture's alternative text and the link's text.
    pub author: String,
    /// Where the author's name links to: their profile page.
    pub author_link: String,
    pub created_at: String,
    /// Passed on to the actions.
    pub can_modify: bool,
    /// Passed on to the actions.
    pub slug: String,
}

/// The route of the profile page of `username`.
pub open spec fn profile_route(username: Seq<char>) -> Seq<char> {
    seq!['#', '/', '@'] + username
}

/// The route of the profile page of `username`.
pub fn profile_link(username: &String) -> (r: String)
    ensures
        r@ == profile_route(username@),
{
    let prefix = String::from_str("#/@");
    proof {
        reveal_strlit("#/@");
        assert(prefix@ =~= seq!['#', '/', '@']);
    }
    prefix.concat(username.as_str())
}

/// The metadata panel of an article: its author, its date and the actions
/// that the reader may take.
pub struct ArticleMeta {
    props: Props,
}

impl ArticleMeta {
    /// A panel showing `props`.
    pub fn create(props: Props) -> (r: ArticleMeta)
        ensures
            r.props() == props,
    {
        ArticleMeta { props }
    }

    /// The properties shown.
    pub closed spec fn props(&self) -> Props {
        self.props
    }

    /// Leaves the panel as it is; it is drawn again all the same.
    pub fn update(&mut self, msg: Msg) -> (r: bool)
        ensures
            r,
            final(self).props() == old(self).props(),
    {
        match msg {
            Msg::Ignore => true,
        }
    }

    /// Replaces the properties; the panel is always drawn again.
    pub fn change(&mut self, props: Props) -> (r: bool)
        ensures
            r,
            final(self).props() == props,
    {
        self.props = props;
        true
    }

    /// What the panel shows for its current properties.
    pub fn view(&self) -> (r: ArticleMetaView)
        ensures
            r.image@ == self.props().author.image@,
            r.author@ == self.props().author.username@,
            r.author_link@ == profile_route(self.props().author.username@),
            r.created_at@ == self.props().created_at@,
            r.can_modify == self.props().can_modify,
            r.slug@ == self.props().slug@,
    {
        ArticleMetaView {
            image: self.props.author.image.clone(),
            author: self.props.author.username.clone(),
            author_link: profile_link(&self.props.author.username),
            created_at: self.props.created_at.clone(),
            can_modify: self.props.can_modify,
            slug: self.props.slug.clone(),
        }
    }
}

} // verus!
