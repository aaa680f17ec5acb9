//! The content of the site: its nodes by content type, with the address and title of each in
//! both languages.

use vstd::prelude::*;

verus! {

/// The Umami website defines three content types.
#[derive(Clone, Copy, Debug, PartialEq, Eq, Structural)]
pub enum ContentType {
    Article,
    BasicPage,
    Recipe,
}

/// The languages in which the site serves every page.
#[derive(Clone, Copy, Debug, PartialEq, Eq, Structural)]
pub enum Locale {
    En,
    Es,
}

/// Details tracked about individual nodes used to run load test and validate
/// that pages are being correctly loaded.
#[derive(Clone, Copy, Debug, PartialEq, Eq)]
pub struct Node<'a> {
    pub nid: u8,
    pub url_en: &'a str,
    pub url_es: &'a str,
    pub title_en: &'a str,
    pub title_es: &'a str,
}

/// What a node says, as text.
pub struct NodeView {
    pub nid: nat,
    pub url_en: Seq<char>,
    pub url_es: Seq<char>,
    pub title_en: Seq<char>,
    pub title_es: Seq<char>,
}

impl<'a> View for Node<'a> {
    type V = NodeView;

    open spec fn view(&self) -> NodeView {
        NodeView {
            nid: self.nid as nat,
            url_en: self.url_en@,
            url_es: self.url_es@,
            title_en: self.title_en@,
            title_es: self.title_es@,
        }
    }
}

impl NodeView {
    /// The path under which the node is served in `locale`.
    pub open spec fn url(self, locale: Locale) -> Seq<char> {
        match locale {
            Locale::En => self.url_en,
            Locale::Es => self.url_es,
        }
    }

    /// The title that the node's page carries in `locale`.
    pub open spec fn title(self, locale: Locale) -> Seq<char> {
        match locale {
            Locale::En => self.title_en,
            Locale::Es => self.title_es,
        }
    }
}

impl<'a> Node<'a> {
    /// The path under which the node is served in `locale`.
    pub fn url(&self, locale: Locale) -> (url: &'a str)
        ensures
            url@ == self@.url(locale),
    {
        match locale {
            Locale::En => self.url_en,
            Locale::Es => self.url_es,
        }
    }

    /// The title that the node's page carries in `locale`.
    pub fn title(&self, locale: Locale) -> (title: &'a str)
        ensures
            title@ == self@.title(locale),
    {
        match locale {
            Locale::En => self.title_en,
            Locale::Es => self.title_es,
        }
    }
}

/// The articles of the site.
pub open spec fn articles() -> Seq<NodeView> {
    seq![
        NodeView {
            nid: 10,
            url_en: "/en/articles/give-it-a-go-and-grow-your-own-herbs"@,
            url_es: "/es/articles/prueba-y-cultiva-tus-propias-hierbas"@,
            title_en: "Give it a go and grow your own herbs"@,
            title_es: "Prueba y cultiva tus propias hierbas"@,
        },
        NodeView {
            nid: 11,
            url_en: "/en/articles/dairy-free-and-delicious-milk-chocolate"@,
            url_es: "/es/articles/delicioso-chocolate-sin-lactosa"@,
            title_en: "Dairy-free and delicious milk chocolate"@,
            title_es: "Delicioso chocolate sin lactosa"@,
        },
        NodeView {
            nid: 12,
            url_en: "/en/articles/the-real-deal-for-supermarket-savvy-shopping"@,
            url_es: "/es/articles/el-verdadeo-negocio-para-comprar-en-el-supermercado"@,
            title_en: "The real deal for supermarket savvy shopping"@,
            title_es: "El verdadero negocio para comprar en el supermercado"@,
        },
        NodeView {
            nid: 13,
            url_en: "/en/articles/the-umami-guide-to-our-favourite-mushrooms"@,
            url_es: "/es/articles/guia-umami-de-nuestras-setas-preferidas"@,
            title_en: "The Umami guide to our favorite mushrooms"@,
            title_es: "Guía Umami de nuestras setas preferidas"@,
        },
        NodeView {
            nid: 14,
            url_en: "/en/articles/lets-hear-it-for-carrots"@,
            url_es: "/es/articles/un-aplauso-para-las-zanahorias"@,
            title_en: "Let&#039;s hear it for carrots"@,
            title_es: "Un aplauso para las zanahorias"@,
        },
        NodeView {
            nid: 15,
            url_en: "/en/articles/baking-mishaps-our-troubleshooting-tips"@,
            url_es: "/es/articles/percances-al-hornear-nuestros-consejos-para-solucionar-problemas"@,
            title_en: "Baking mishaps - our troubleshooting tips"@,
            title_es: "Percances al hornear - nuestros consejos para solucionar los problemas"@,
        },
        NodeView {
            nid: 16,
            url_en: "/en/articles/skip-the-spirits-with-delicious-mocktails"@,
            url_es: "/es/articles/salta-los-espiritus-con-deliciosos-cocteles-sin-alcohol"@,
            title_en: "Skip the spirits with delicious mocktails"@,
            title_es: "Salta los espíritus con deliciosos cócteles sin alcohol"@,
        },
        NodeView {
            nid: 17,
            url_en: "/en/articles/give-your-oatmeal-the-ultimate-makeover"@,
            url_es: "/es/articles/dale-a-tu-avena-el-cambio-de-imagen-definitivo"@,
            title_en: "Give your oatmeal the ultimate makeover"@,
            title_es: "Dale a tu avena el cambio de imagen definitivo"@,
        },
    ]
}

/// The basic pages of the site.
pub open spec fn basic_pages() -> Seq<NodeView> {
    seq![
        NodeView {
            nid: 18,
            url_en: "/en/about-umami"@,
            url_es: "/es/acerca-de-umami"@,
            title_en: "About Umami"@,
            title_es: "Acerca de Umami"@,
        },
    ]
}

/// The recipes of the site.
pub open spec fn recipes() -> Seq<NodeView> {
    seq![
        NodeView {
            nid: 1,
            url_en: "/en/recipes/deep-mediterranean-quiche"@,
            url_es: "/es/recipes/quiche-mediterráneo-profundo"@,
            title_en: "Deep mediterranean quiche"@,
            title_es: "Quiche mediterráneo profundo"@,
        },
        NodeView {
            nid: 2,
            url_en: "/en/recipes/vegan-chocolate-and-nut-brownies"@,
            url_es: "/es/recipes/bizcochos-veganos-de-chocolate-y-nueces"@,
            title_en: "Vegan chocolate and nut brownies"@,
            title_es: "Bizcochos veganos de chocolate y nueces"@,
        },
        NodeView {
            nid: 3,
            url_en: "/en/recipes/super-easy-vegetarian-pasta-bake"@,
            url_es: "/es/recipes/pasta-vegetariana-horno-super-facil"@,
            title_en: "Super easy vegetarian pasta bake"@,
            title_es: "Pasta vegetariana al horno súper fácil"@,
        },
        NodeView {
            nid: 4,
            url_en: "/en/recipes/watercress-soup"@,
            url_es: "/es/recipes/sopa-de-berro"@,
            title_en: "Watercress soup"@,
            title_es: "Sopa de berro"@,
        },
        NodeView {
            nid: 5,
            url_en: "/en/recipes/victoria-sponge-cake"@,
            url_es: "/es/recipes/pastel-victoria"@,
            title_en: "Victoria sponge cake"@,
            title_es: "Pastel Victoria"@,
        },
        NodeView {
            nid: 6,
            url_en: "/en/recipes/gluten-free-pizza"@,
            url_es: "/es/recipes/pizza-sin-gluten"@,
            title_en: "Gluten free pizza"@,
            title_es: "Pizza sin gluten"@,
        },
        NodeView {
            nid: 7,
            url_en: "/en/recipes/thai-green-curry"@,
            url_es: "/es/recipes/curry-verde-tailandes"@,
            title_en: "Thai green curry"@,
            title_es: "Curry verde tailandés"@,
        },
        NodeView {
            nid: 8,
            url_en: "/en/recipes/crema-catalana"@,
            url_es: "/es/recipes/crema-catalana"@,
            title_en: "Crema catalana"@,
            title_es: "Crema catalana"@,
        },
        NodeView {
            nid: 9,
            url_en: "/en/recipes/fiery-chili-sauce"@,
            url_es: "/es/recipes/salsa-de-chile-ardiente"@,
            title_en: "Fiery chili sauce"@,
            title_es: "Salsa de chile ardiente"@,
        },
    ]
}

/// The nodes of one content type, in the order in which they are listed.
pub open spec fn catalog(content_type: ContentType) -> Seq<NodeView> {
    match content_type {
        ContentType::Article => articles(),
        ContentType::BasicPage => basic_pages(),
        ContentType::Recipe => recipes(),
    }
}

/// The site has eight articles, one basic page and nine recipes.
pub proof fn lemma_catalog_sizes()
    ensures
        catalog(ContentType::Article).len() == 8,
        catalog(ContentType::BasicPage).len() == 1,
        catalog(ContentType::Recipe).len() == 9,
{
}

/// Every content type has nodes.
pub proof fn lemma_catalog_inhabited(content_type: ContentType)
    ensures
        catalog(content_type).len() > 0,
{
}

/// The number of a node tells the node: the nodes of the site are numbered from 1 to 18,
/// and no two of them share a number, be they of one content type or of two.
pub proof fn lemma_nid_identifies(first: ContentType, i: int, second: ContentType, j: int)
    requires
        0 <= i < catalog(first).len(),
        0 <= j < catalog(second).len(),
    ensures
        1 <= catalog(first)[i].nid <= 18,
        catalog(first)[i].nid == catalog(second)[j].nid ==> first == second && i == j,
{
}

/// The views of `nodes`, one for one.
pub open spec fn views(nodes: Seq<Node>) -> Seq<NodeView> {
    nodes.map_values(|node: Node| node@)
}

/// Returns a vector of all nodes of a specified content type.
pub fn get_nodes(content_type: &ContentType) -> (nodes: Vec<Node>)
    ensures
        views(nodes@) == catalog(*content_type),
        nodes@.len() == catalog(*content_type).len(),
{
    let mut nodes: Vec<Node> = Vec::new();

    match content_type {
        ContentType::Article => {
            nodes.push(
                Node {
                    nid: 10,
                    url_en: "/en/articles/give-it-a-go-and-grow-your-own-herbs",
                    url_es: "/es/articles/prueba-y-cultiva-tus-propias-hierbas",
                    title_en: "Give it a go and grow your own herbs",
                    title_es: "Prueba y cultiva tus propias hierbas",
                },
            );
            nodes.push(
                Node {
                    nid: 11,
                    url_en: "/en/articles/dairy-free-and-delicious-milk-chocolate",
                    url_es: "/es/articles/delicioso-chocolate-sin-lactosa",
                    title_en: "Dairy-free and delicious milk chocolate",
                    title_es: "Delicioso chocolate sin lactosa",
                },
            );
            nodes.push(
                Node {
                    nid: 12,
                    url_en: "/en/articles/the-real-deal-for-supermarket-savvy-shopping",
                    url_es: "/es/articles/el-verdadeo-negocio-para-comprar-en-el-supermercado",
                    title_en: "The real deal for supermarket savvy shopping",
                    title_es: "El verdadero negocio para comprar en el supermercado",
                },
            );
            nodes.push(
                Node {
                    nid: 13,
                    url_en: "/en/articles/the-umami-guide-to-our-favourite-mushrooms",
                    url_es: "/es/articles/guia-umami-de-nuestras-setas-preferidas",
                    title_en: "The Umami guide to our favorite mushrooms",
                    title_es: "Guía Umami de nuestras setas preferidas",
                },
            );
            nodes.push(
                Node {
                    nid: 14,
                    url_en: "/en/articles/lets-hear-it-for-carrots",
                    url_es: "/es/articles/un-aplauso-para-las-zanahorias",
                    title_en: "Let&#039;s hear it for carrots",
                    title_es: "Un aplauso para las zanahorias",
                },
            );
            nodes.push(
                Node {
                    nid: 15,
                    url_en: "/en/articles/baking-mishaps-our-troubleshooting-tips",
                    url_es: "/es/articles/percances-al-hornear-nuestros-consejos-para-solucionar-problemas",
                    title_en: "Baking mishaps - our troubleshooting tips",
                    title_es: "Percances al hornear - nuestros consejos para solucionar los problemas",
                },
            );
            nodes.push(
                Node {
                    nid: 16,
                    url_en: "/en/articles/skip-the-spirits-with-delicious-mocktails",
                    url_es: "/es/articles/salta-los-espiritus-con-deliciosos-cocteles-sin-alcohol",
                    title_en: "Skip the spirits with delicious mocktails",
                    title_es: "Salta los espíritus con deliciosos cócteles sin alcohol",
                },
            );
            nodes.push(
                Node {
                    nid: 17,
                    url_en: "/en/articles/give-your-oatmeal-the-ultimate-makeover",
                    url_es: "/es/articles/dale-a-tu-avena-el-cambio-de-imagen-definitivo",
                    title_en: "Give your oatmeal the ultimate makeover",
                    title_es: "Dale a tu avena el cambio de imagen definitivo",
                },
            );
        },
        ContentType::BasicPage => {
            nodes.push(
                Node {
                    nid: 18,
                    url_en: "/en/about-umami",
                    url_es: "/es/acerca-de-umami",
                    title_en: "About Umami",
                    title_es: "Acerca de Umami",
                },
            );
        },
        ContentType::Recipe => {
            nodes.push(
                Node {
                    nid: 1,
                    url_en: "/en/recipes/deep-mediterranean-quiche",
                    url_es: "/es/recipes/quiche-mediterráneo-profundo",
                    title_en: "Deep mediterranean quiche",
                    title_es: "Quiche mediterráneo profundo",
                },
            );
            nodes.push(
                Node {
                    nid: 2,
                    url_en: "/en/recipes/vegan-chocolate-and-nut-brownies",
                    url_es: "/es/recipes/bizcochos-veganos-de-chocolate-y-nueces",
                    title_en: "Vegan chocolate and nut brownies",
                    title_es: "Bizcochos veganos de chocolate y nueces",
                },
            );
            nodes.push(
                Node {
                    nid: 3,
                    url_en: "/en/recipes/super-easy-vegetarian-pasta-bake",
                    url_es: "/es/recipes/pasta-vegetariana-horno-super-facil",
                    title_en: "Super easy vegetarian pasta bake",
                    title_es: "Pasta vegetariana al horno súper fácil",
                },
            );
            nodes.push(
                Node {
                    nid: 4,
                    url_en: "/en/recipes/watercress-soup",
                    url_es: "/es/recipes/sopa-de-berro",
                    title_en: "Watercress soup",
                    title_es: "Sopa de berro",
                },
            );
            nodes.push(
                Node {
                    nid: 5,
                    url_en: "/en/recipes/victoria-sponge-cake",
                    url_es: "/es/recipes/pastel-victoria",
                    title_en: "Victoria sponge cake",
                    title_es: "Pastel Victoria",
                },
            );
            nodes.push(
                Node {
                    nid: 6,
                    url_en: "/en/recipes/gluten-free-pizza",
                    url_es: "/es/recipes/pizza-sin-gluten",
                    title_en: "Gluten free pizza",
                    title_es: "Pizza sin gluten",
                },
            );
            nodes.push(
                Node {
                    nid: 7,
                    url_en: "/en/recipes/thai-green-curry",
                    url_es: "/es/recipes/curry-verde-tailandes",
                    title_en: "Thai green curry",
                    title_es: "Curry verde tailandés",
                },
            );
            nodes.push(
                Node {
                    nid: 8,
                    url_en: "/en/recipes/crema-catalana",
                    url_es: "/es/recipes/crema-catalana",
                    title_en: "Crema catalana",
                    title_es: "Crema catalana",
                },
            );
            nodes.push(
                Node {
                    nid: 9,
                    url_en: "/en/recipes/fiery-chili-sauce",
                    url_es: "/es/recipes/salsa-de-chile-ardiente",
                    title_en: "Fiery chili sauce",
                    title_es: "Salsa de chile ardiente",
                },
            );
        },
    }

    assert(views(nodes@) =~= catalog(*content_type));
    nodes
}

} // verus!
