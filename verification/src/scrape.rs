//! What a page of films says.
use crate::decimal::parse_uint;
use crate::error::{ClientError, ClientErrorView, LetterboxdError, LetterboxdErrorView, Stage};
use crate::film::{Film, FilmView};
use crate::rating::Rating;
use crate::text::join;
use scraper::{Html, Selector};
use vstd::prelude::*;

verus! {

/// The site.
pub const BASE_URL: &'static str = "https://letterboxd.com";

/// The element that carries the number of a film.
pub const DATA_SELECTOR: &'static str = "div[data-film-id]";

/// The image on the poster of a film.
pub const POSTER_SELECTOR: &'static str = "div.poster.film-poster img";

/// The rating of a film.
pub const RATING_SELECTOR: &'static str = "span.rating";

/// The list of pages.
pub const PAGINATION_SELECTOR: &'static str = "div.pagination";

/// The link to one page.
pub const PAGINATE_PAGE_SELECTOR: &'static str = "li.paginate-page > a";

/// One film in the grid of films.
pub const GRID_ITEM_SELECTOR: &'static str = "li.griditem";

/// The attribute with the number of a film.
pub const FILM_ID_ATTRIBUTE: &'static str = "data-film-id";

/// The attribute with the name of a film in addresses.
pub const ITEM_SLUG_ATTRIBUTE: &'static str = "data-item-slug";

/// The attribute with the title of a film.
pub const ALT_ATTRIBUTE: &'static str = "alt";

/// Whether a text is one of the selectors above.
pub open spec fn is_selector(css: Seq<char>) -> bool {
    ||| css == DATA_SELECTOR@
    ||| css == POSTER_SELECTOR@
    ||| css == RATING_SELECTOR@
    ||| css == PAGINATION_SELECTOR@
    ||| css == PAGINATE_PAGE_SELECTOR@
    ||| css == GRID_ITEM_SELECTOR@
}

/// An element that a selector has found on a page.
#[derive(Debug)]
pub struct Element {
    /// The values of the attributes that were asked for, in the order in which they were.
    pub attributes: Vec<Option<String>>,
    /// The HTML in the element.
    pub inner_html: String,
    /// The texts in the element, in order.
    pub texts: Vec<String>,
}

/// An [`Element`] as a mathematical value.
pub struct ElementView {
    pub attributes: Seq<Option<Seq<char>>>,
    pub inner_html: Seq<char>,
    pub texts: Seq<Seq<char>>,
}

impl View for Element {
    type V = ElementView;

    open spec fn view(&self) -> ElementView {
        ElementView {
            attributes: self.attributes@.map_values(|a: Option<String>| crate::text::text_view(a)),
            inner_html: self.inner_html@,
            texts: self.texts@.map_values(|t: String| t@),
        }
    }
}

/// What was found, for each scope and each selector, as a mathematical value.
pub open spec fn found_view(found: Seq<Vec<Vec<Element>>>) -> Seq<Seq<Seq<ElementView>>> {
    found.map_values(|row: Vec<Vec<Element>>| row_view(row@))
}

/// What was found in one scope, for each selector, as a mathematical value.
pub open spec fn row_view(row: Seq<Vec<Element>>) -> Seq<Seq<ElementView>> {
    row.map_values(|elements: Vec<Element>| elements@.map_values(|e: Element| e@))
}

/// The texts behind references to them.
pub open spec fn texts_view(texts: Seq<&str>) -> Seq<Seq<char>> {
    texts.map_values(|t: &str| t@)
}

/// What the HTML parser and the selectors of `scraper` find on a page: for each element of the
/// document that `outer` matches, and each selector of `inner`, the elements below it that the
/// selector matches, each with the values of its `attributes`, its inner HTML and its texts.
pub uninterp spec fn selected(
    page: Seq<char>,
    outer: Seq<char>,
    inner: Seq<Seq<char>>,
    attributes: Seq<Seq<char>>,
) -> Seq<Seq<Seq<ElementView>>>;

/// `scraper::Html::parse_document`, `scraper::Selector::parse`, `scraper::Html::select`,
/// `scraper::ElementRef::select`, `attr`, `inner_html` and `text`: what they find on a page is a
/// function of the page, the selectors and the names of the attributes. There is one list of
/// elements for each selector of `inner`, and one value for each of `attributes`. The selectors
/// of this module are ones that `scraper::Selector::parse` accepts.
#[verifier::external_body]
fn select_within(
    page: &str,
    outer: &str,
    inner: &Vec<&str>,
    attributes: &Vec<&str>,
) -> (found: Vec<Vec<Vec<Element>>>)
    requires
        is_selector(outer@),
        forall|i: int| 0 <= i < inner@.len() ==> is_selector((#[trigger] inner@[i])@),
    ensures
        found_view(found@) == selected(page@, outer@, texts_view(inner@), texts_view(attributes@)),
        forall|i: int| 0 <= i < found@.len() ==> (#[trigger] found@[i])@.len() == inner@.len(),
        forall|i: int, j: int, k: int|
            0 <= i < found@.len() && 0 <= j < inner@.len() && 0 <= k < found@[i]@[j]@.len()
                ==> (#[trigger] found@[i]@[j]@[k]).attributes@.len() == attributes@.len(),
{
    let document = Html::parse_document(page);
    let outer = Selector::parse(outer).unwrap();
    let inner: Vec<Selector> = inner.iter().map(|css| Selector::parse(css).unwrap()).collect();
    let element = |e: scraper::ElementRef| Element {
        attributes: attributes.iter().map(|name| e.attr(name).map(str::to_owned)).collect(),
        inner_html: e.inner_html(),
        texts: e.text().map(str::to_owned).collect(),
    };
    let row = |scope: scraper::ElementRef| {
        inner.iter().map(|css| scope.select(css).map(element).collect()).collect()
    };
    document.select(&outer).map(row).collect()
}

/// What the element with the number of a film says of the film.
#[derive(Debug)]
pub struct FilmData {
    /// The number of the film.
    pub film_id: Option<String>,
    /// The name of the film in addresses.
    pub item_slug: Option<String>,
}

/// One film in the grid of films.
#[derive(Debug)]
pub struct GridItem {
    /// What the element with the number of the film says, if there is such an element.
    pub data: Option<FilmData>,
    /// The title on the poster, if there is a poster, and a title on it.
    pub poster: Option<Option<String>>,
    /// The text of the rating, if there is any.
    pub rating: Option<String>,
}

/// A [`FilmData`] as a mathematical value.
pub struct FilmDataView {
    pub film_id: Option<Seq<char>>,
    pub item_slug: Option<Seq<char>>,
}

/// A [`GridItem`] as a mathematical value.
pub struct GridItemView {
    pub data: Option<FilmDataView>,
    pub poster: Option<Option<Seq<char>>>,
    pub rating: Option<Seq<char>>,
}

impl View for FilmData {
    type V = FilmDataView;

    open spec fn view(&self) -> FilmDataView {
        FilmDataView {
            film_id: crate::text::text_view(self.film_id),
            item_slug: crate::text::text_view(self.item_slug),
        }
    }
}

impl View for GridItem {
    type V = GridItemView;

    open spec fn view(&self) -> GridItemView {
        GridItemView {
            data: match self.data {
                Some(data) => Some(data@),
                None => None,
            },
            poster: match self.poster {
                Some(alt) => Some(crate::text::text_view(alt)),
                None => None,
            },
            rating: crate::text::text_view(self.rating),
        }
    }
}

/// The film that an item of the grid shows, or the first thing that it lacks.
pub open spec fn film_of(item: GridItemView) -> Result<FilmView, ClientErrorView> {
    let missing = |name: Seq<char>|
        Err::<FilmView, ClientErrorView>(
            ClientErrorView::Letterboxd(LetterboxdErrorView::HtmlMissingAttr(name)),
        );
    match (item.data, item.poster) {
        (None, _) => missing("data-film-id"@),
        (_, None) => missing("poster"@),
        (Some(data), Some(alt)) => {
            if item.rating is Some && crate::rating::read(item.rating->0) is None {
                Err(ClientErrorView::UnknownRating(item.rating->0).during(Stage::Rating))
            } else {
                match (data.item_slug, data.film_id) {
                    (None, _) => missing("data-item-slug"@),
                    (_, None) => missing("data-film-id"@),
                    (Some(slug), Some(id)) => match crate::decimal::parsed(id, u64::MAX as int) {
                        Err(e) => Err(ClientErrorView::InvalidNumber(e).during(Stage::FilmId)),
                        Ok(n) => match alt {
                            None => missing("alt"@),
                            Some(name) => Ok(
                                FilmView {
                                    id: n as u64,
                                    name,
                                    url: film_url(slug),
                                    poster: poster_path(slug),
                                    rating: match item.rating {
                                        Some(stars) => crate::rating::read(stars),
                                        None => None,
                                    },
                                },
                            ),
                        },
                    },
                }
            }
        },
    }
}

/// The address of the page of a film.
pub open spec fn film_url(slug: Seq<char>) -> Seq<char> {
    BASE_URL@ + "/film/"@ + slug
}

/// Where the poster of a film is served.
pub open spec fn poster_path(slug: Seq<char>) -> Seq<char> {
    "/poster/"@ + slug
}

/// The rating that a text shows.
pub open spec fn rating_of(text: Seq<char>) -> Result<Rating, ClientErrorView> {
    match crate::rating::read(text) {
        Some(rating) => Ok(rating),
        None => Err(ClientErrorView::UnknownRating(text)),
    }
}

/// Reads a rating from its stars.
pub fn parse_rating(rating: &str) -> (res: Result<Rating, ClientError>)
    ensures
        match res {
            Ok(r) => rating_of(rating@) == Ok::<Rating, ClientErrorView>(r),
            Err(e) => rating_of(rating@) == Err::<Rating, ClientErrorView>(e@),
        },
{
    match Rating::parse(rating) {
        Some(r) => Ok(r),
        None => Err(ClientError::UnknownRating(rating.to_owned())),
    }
}

/// The failure that an element or an attribute is missing.
fn missing(name: &str) -> (res: ClientError)
    ensures
        res@ == ClientErrorView::Letterboxd(LetterboxdErrorView::HtmlMissingAttr(name@)),
{
    ClientError::Letterboxd(LetterboxdError::HtmlMissingAttr(name.to_owned()))
}

/// Reads a film from an item of the grid.
pub fn film_from_item(movie: &GridItem) -> (res: Result<Film, ClientError>)
    ensures
        match res {
            Ok(film) => film_of(movie@) == Ok::<FilmView, ClientErrorView>(film@),
            Err(e) => film_of(movie@) == Err::<FilmView, ClientErrorView>(e@),
        },
{
    let data = match &movie.data {
        Some(data) => data,
        None => {
            return Err(missing("data-film-id"));
        },
    };
    let alt = match &movie.poster {
        Some(alt) => alt,
        None => {
            return Err(missing("poster"));
        },
    };
    let rating = match &movie.rating {
        Some(text) => match parse_rating(text.as_str()) {
            Ok(rating) => Some(rating),
            Err(e) => {
                return Err(e.during(Stage::Rating));
            },
        },
        None => None,
    };
    let slug = match &data.item_slug {
        Some(slug) => slug,
        None => {
            return Err(missing("data-item-slug"));
        },
    };
    let id = match &data.film_id {
        Some(text) => match parse_uint(text.as_str(), u64::MAX) {
            Ok(id) => id,
            Err(e) => {
                return Err(ClientError::InvalidNumber(e).during(Stage::FilmId));
            },
        },
        None => {
            return Err(missing("data-film-id"));
        },
    };
    let name = match alt {
        Some(name) => name.clone(),
        None => {
            return Err(missing("alt"));
        },
    };
    let mut url = join(BASE_URL, "/film/");
    url.append(slug.as_str());
    Ok(Film { id, name, url, poster: join("/poster/", slug.as_str()), rating })
}

/// What the selectors have found in one item of the grid: the elements with the number of the
/// film, the posters and the ratings, of which the first ones count.
pub open spec fn item_of(row: Seq<Seq<ElementView>>) -> GridItemView {
    GridItemView {
        data: if row[0].len() > 0 {
            Some(
                FilmDataView {
                    film_id: row[0][0].attributes[0],
                    item_slug: row[0][0].attributes[1],
                },
            )
        } else {
            None
        },
        poster: if row[1].len() > 0 {
            Some(row[1][0].attributes[2])
        } else {
            None
        },
        rating: if row[2].len() > 0 && row[2][0].texts.len() > 0 {
            Some(row[2][0].texts[0])
        } else {
            None
        },
    }
}

/// What the selectors have found in the items of the grid, as items.
pub open spec fn items_of(found: Seq<Seq<Seq<ElementView>>>) -> Seq<GridItemView> {
    found.map_values(|row: Seq<Seq<ElementView>>| item_of(row))
}

/// The items of the grid on a page.
pub open spec fn items_on(page: Seq<char>) -> Seq<GridItemView> {
    items_of(
        selected(
            page,
            GRID_ITEM_SELECTOR@,
            seq![DATA_SELECTOR@, POSTER_SELECTOR@, RATING_SELECTOR@],
            seq![FILM_ID_ATTRIBUTE@, ITEM_SLUG_ATTRIBUTE@, ALT_ATTRIBUTE@],
        ),
    )
}

/// The films that items show, in their order, or the failure of the first that shows none.
pub open spec fn films_of(items: Seq<GridItemView>) -> Result<Seq<FilmView>, ClientErrorView>
    decreases items.len(),
{
    if items.len() == 0 {
        Ok(Seq::empty())
    } else {
        match films_of(items.drop_last()) {
            Err(e) => Err(e),
            Ok(films) => match film_of(items.last()) {
                Err(e) => Err(e),
                Ok(film) => Ok(films.push(film)),
            },
        }
    }
}

/// The films on a page.
pub open spec fn page_films(items: Seq<GridItemView>) -> Result<Seq<FilmView>, ClientErrorView> {
    match films_of(items) {
        Ok(films) => Ok(films),
        Err(e) => Err(e.during(Stage::PageFilms)),
    }
}

/// A list of films as a mathematical value.
pub open spec fn films_view(films: Seq<Film>) -> Seq<FilmView> {
    films.map_values(|film: Film| film@)
}

/// A list of grid items as a mathematical value.
pub open spec fn items_view(items: Seq<GridItem>) -> Seq<GridItemView> {
    items.map_values(|item: GridItem| item@)
}

/// The inner HTML of the links that were found in the first list of pages, if there is a list.
pub open spec fn links_of(found: Seq<Seq<Seq<ElementView>>>) -> Option<Seq<Seq<char>>> {
    if found.len() > 0 {
        Some(found[0][0].map_values(|e: ElementView| e.inner_html))
    } else {
        None
    }
}

/// The inner HTML of the links to pages in the first list of pages on a page, if there is a list.
pub open spec fn pagination_on(page: Seq<char>) -> Option<Seq<Seq<char>>> {
    links_of(selected(page, PAGINATION_SELECTOR@, seq![PAGINATE_PAGE_SELECTOR@], seq![]))
}

/// The number of pages: that on the last link to one, and one where there is no list of pages.
pub open spec fn page_count(pagination: Option<Seq<Seq<char>>>) -> Result<int, ClientErrorView> {
    match pagination {
        None => Ok(1),
        Some(links) => if links.len() == 0 {
            Err(ClientErrorView::Letterboxd(LetterboxdErrorView::PaginationElementNotFound))
        } else {
            match crate::decimal::parsed(links.last(), usize::MAX as int) {
                Ok(n) => Ok(n),
                Err(e) => Err(ClientErrorView::InvalidNumber(e).during(Stage::PageNumber)),
            }
        },
    }
}

/// The links to pages as a mathematical value.
pub open spec fn links_view(links: Option<Vec<String>>) -> Option<Seq<Seq<char>>> {
    match links {
        Some(links) => Some(links@.map_values(|link: String| link@)),
        None => None,
    }
}

/// A copy of an optional text.
fn copied(text: &Option<String>) -> (res: Option<String>)
    ensures
        crate::text::text_view(res) == crate::text::text_view(*text),
{
    match text {
        Some(s) => Some(s.clone()),
        None => None,
    }
}

/// Reads an item of the grid off what the selectors have found in it.
pub fn item_from_row(row: &Vec<Vec<Element>>) -> (res: GridItem)
    requires
        row@.len() == 3,
        forall|j: int, k: int|
            0 <= j < 3 && 0 <= k < row@[j]@.len() ==> (#[trigger] row@[j]@[k]).attributes@.len()
                == 3,
    ensures
        res@ == item_of(row_view(row@)),
{
    let data = if row[0].len() > 0 {
        let element = &row[0][0];
        assert(row_view(row@)[0][0] == row@[0]@[0]@);
        Some(
            FilmData {
                film_id: copied(&element.attributes[0]),
                item_slug: copied(&element.attributes[1]),
            },
        )
    } else {
        None
    };
    let poster = if row[1].len() > 0 {
        assert(row_view(row@)[1][0] == row@[1]@[0]@);
        Some(copied(&row[1][0].attributes[2]))
    } else {
        None
    };
    let rating = if row[2].len() > 0 && row[2][0].texts.len() > 0 {
        assert(row_view(row@)[2][0] == row@[2]@[0]@);
        Some(row[2][0].texts[0].clone())
    } else {
        None
    };
    GridItem { data, poster, rating }
}

/// Reads the items of the grid off what the selectors have found on a page.
pub fn items_from_found(found: &Vec<Vec<Vec<Element>>>) -> (res: Vec<GridItem>)
    requires
        forall|i: int| 0 <= i < found@.len() ==> (#[trigger] found@[i])@.len() == 3,
        forall|i: int, j: int, k: int|
            0 <= i < found@.len() && 0 <= j < 3 && 0 <= k < found@[i]@[j]@.len() ==> (
            #[trigger] found@[i]@[j]@[k]).attributes@.len() == 3,
    ensures
        items_view(res@) == items_of(found_view(found@)),
{
    let mut items: Vec<GridItem> = Vec::new();
    let mut i: usize = 0;
    while i < found.len()
        invariant
            i <= found.len(),
            items@.len() == i,
            forall|j: int| 0 <= j < found@.len() ==> (#[trigger] found@[j])@.len() == 3,
            forall|h: int, j: int, k: int|
                0 <= h < found@.len() && 0 <= j < 3 && 0 <= k < found@[h]@[j]@.len() ==> (
                #[trigger] found@[h]@[j]@[k]).attributes@.len() == 3,
            forall|j: int|
                0 <= j < i ==> (#[trigger] items@[j])@ == item_of(row_view(found@[j]@)),
        decreases found.len() - i,
    {
        items.push(item_from_row(&found[i]));
        i += 1;
    }
    assert(items_view(items@) =~= items_of(found_view(found@)));
    items
}

/// Finds the items of the grid on a page.
pub fn grid_items(page: &str) -> (res: Vec<GridItem>)
    ensures
        items_view(res@) == items_on(page@),
{
    let mut selectors: Vec<&str> = Vec::new();
    selectors.push(DATA_SELECTOR);
    selectors.push(POSTER_SELECTOR);
    selectors.push(RATING_SELECTOR);
    let mut attributes: Vec<&str> = Vec::new();
    attributes.push(FILM_ID_ATTRIBUTE);
    attributes.push(ITEM_SLUG_ATTRIBUTE);
    attributes.push(ALT_ATTRIBUTE);
    proof {
        assert(texts_view(selectors@) =~= seq![DATA_SELECTOR@, POSTER_SELECTOR@, RATING_SELECTOR@]);
        assert(texts_view(attributes@) =~= seq![
            FILM_ID_ATTRIBUTE@,
            ITEM_SLUG_ATTRIBUTE@,
            ALT_ATTRIBUTE@,
        ]);
        assert forall|i: int| 0 <= i < selectors@.len() implies is_selector(
            (#[trigger] selectors@[i])@,
        ) by {
            assert(texts_view(selectors@)[i] == selectors@[i]@);
        }
    }
    let found = select_within(page, GRID_ITEM_SELECTOR, &selectors, &attributes);
    items_from_found(&found)
}

/// Reads the films of a page off the items of its grid.
pub fn films_from_items(items: &Vec<GridItem>) -> (res: Result<Vec<Film>, ClientError>)
    ensures
        match res {
            Ok(films) => page_films(items_view(items@)) == Ok::<Seq<FilmView>, ClientErrorView>(
                films_view(films@),
            ),
            Err(e) => page_films(items_view(items@)) == Err::<Seq<FilmView>, ClientErrorView>(e@),
        },
{
    let ghost all = items_view(items@);
    let mut films: Vec<Film> = Vec::new();
    let mut i: usize = 0;
    assert(films_view(films@) =~= Seq::<FilmView>::empty());
    while i < items.len()
        invariant
            i <= items.len(),
            all == items_view(items@),
            films_of(all.take(i as int)) == Ok::<Seq<FilmView>, ClientErrorView>(
                films_view(films@),
            ),
        decreases items.len() - i,
    {
        proof {
            assert(all.take(i + 1).drop_last() =~= all.take(i as int));
            assert(all.take(i + 1).last() == items@[i as int]@);
        }
        match film_from_item(&items[i]) {
            Ok(film) => {
                let ghost before = films@;
                films.push(film);
                assert(films_view(films@) =~= films_view(before).push(film@));
            },
            Err(e) => {
                proof {
                    lemma_first_failure_counts(all, i + 1);
                }
                return Err(e.during(Stage::PageFilms));
            },
        }
        i += 1;
    }
    assert(all.take(all.len() as int) =~= all);
    Ok(films)
}

/// A failure among the first items is the failure of them all.
proof fn lemma_first_failure_counts(items: Seq<GridItemView>, n: int)
    requires
        0 <= n <= items.len(),
        films_of(items.take(n)) is Err,
    ensures
        films_of(items) == films_of(items.take(n)),
    decreases items.len(),
{
    if n == items.len() {
        assert(items.take(n) =~= items);
    } else {
        assert(items.drop_last().take(n) =~= items.take(n));
        lemma_first_failure_counts(items.drop_last(), n);
    }
}

/// Reads the links to pages off what the selectors have found on a page.
pub fn links_from_found(found: &Vec<Vec<Vec<Element>>>) -> (res: Option<Vec<String>>)
    requires
        found@.len() > 0 ==> found@[0]@.len() > 0,
    ensures
        links_view(res) == links_of(found_view(found@)),
{
    if found.len() == 0 {
        return None;
    }
    let elements = &found[0][0];
    let mut links: Vec<String> = Vec::new();
    let mut i: usize = 0;
    while i < elements.len()
        invariant
            i <= elements.len(),
            links@.len() == i,
            forall|j: int| 0 <= j < i ==> (#[trigger] links@[j])@ == elements@[j].inner_html@,
        decreases elements.len() - i,
    {
        links.push(elements[i].inner_html.clone());
        i += 1;
    }
    proof {
        let seen = found_view(found@)[0][0];
        assert(seen == elements@.map_values(|e: Element| e@));
        assert(links@.map_values(|link: String| link@) =~= seen.map_values(
            |e: ElementView| e.inner_html,
        ));
    }
    Some(links)
}

/// Finds the links to pages on a page.
pub fn page_links(page: &str) -> (res: Option<Vec<String>>)
    ensures
        links_view(res) == pagination_on(page@),
{
    let mut selectors: Vec<&str> = Vec::new();
    selectors.push(PAGINATE_PAGE_SELECTOR);
    let attributes: Vec<&str> = Vec::new();
    proof {
        assert(texts_view(selectors@) =~= seq![PAGINATE_PAGE_SELECTOR@]);
        assert(texts_view(attributes@) =~= Seq::<Seq<char>>::empty());
        assert(selectors@[0]@ == PAGINATE_PAGE_SELECTOR@);
    }
    let found = select_within(page, PAGINATION_SELECTOR, &selectors, &attributes);
    links_from_found(&found)
}

/// Reads the number of pages off the links to them.
pub fn pages_from_links(links: &Option<Vec<String>>) -> (res: Result<usize, ClientError>)
    ensures
        match res {
            Ok(n) => page_count(links_view(*links)) == Ok::<int, ClientErrorView>(n as int),
            Err(e) => page_count(links_view(*links)) == Err::<int, ClientErrorView>(e@),
        },
{
    match links {
        None => Ok(1),
        Some(links) => {
            if links.len() == 0 {
                return Err(ClientError::Letterboxd(LetterboxdError::PaginationElementNotFound));
            }
            match parse_uint(links[links.len() - 1].as_str(), usize::MAX as u64) {
                Ok(n) => Ok(n as usize),
                Err(e) => Err(ClientError::InvalidNumber(e).during(Stage::PageNumber)),
            }
        },
    }
}

/// The films of a page can be read exactly when each item of its grid shows one; they are then the
/// films of the items, one for one. Otherwise the failure is that of the first item without one.
pub proof fn law_films_of_a_page(items: Seq<GridItemView>)
    ensures
        films_of(items) is Ok <==> forall|i: int|
            0 <= i < items.len() ==> film_of(#[trigger] items[i]) is Ok,
        films_of(items) matches Ok(films) ==> films.len() == items.len() && forall|i: int|
            0 <= i < items.len() ==> film_of(items[i]) == Ok::<FilmView, ClientErrorView>(
                #[trigger] films[i],
            ),
        films_of(items) matches Err(e) ==> exists|i: int|
            0 <= i < items.len() && film_of(#[trigger] items[i]) == Err::<
                FilmView,
                ClientErrorView,
            >(e) && forall|j: int| 0 <= j < i ==> film_of(#[trigger] items[j]) is Ok,
    decreases items.len(),
{
    if items.len() > 0 {
        let rest = items.drop_last();
        law_films_of_a_page(rest);
        assert(forall|i: int| 0 <= i < rest.len() ==> rest[i] == items[i]);
        match films_of(rest) {
            Ok(films) => {
                assert forall|j: int| 0 <= j < items.len() - 1 implies film_of(
                    #[trigger] items[j],
                ) is Ok by {
                    assert(film_of(rest[j]) is Ok);
                }
                assert(items[items.len() - 1] == items.last());
            },
            Err(e) => {
                let i = choose|i: int|
                    0 <= i < rest.len() && film_of(#[trigger] rest[i]) == Err::<
                        FilmView,
                        ClientErrorView,
                    >(e) && forall|j: int| 0 <= j < i ==> film_of(#[trigger] rest[j]) is Ok;
                assert(film_of(items[i]) == Err::<FilmView, ClientErrorView>(e));
                assert forall|j: int| 0 <= j < i implies film_of(#[trigger] items[j]) is Ok by {
                    assert(film_of(rest[j]) is Ok);
                }
            },
        }
    }
}

/// What is read of an item is what the item says: the film has the number that the text denotes, the
/// title, and the addresses by its name; it has a rating exactly when there is a text of one, and
/// the rating is shown by that text, white space around it aside.
pub proof fn law_film_is_what_the_item_says(item: GridItemView)
    ensures
        film_of(item) matches Ok(film) ==> {
            &&& item.data is Some && item.data->0.film_id is Some && item.data->0.item_slug is Some
            &&& item.poster is Some && item.poster->0 is Some
            &&& crate::decimal::denotes(item.data->0.film_id->0, film.id as nat)
            &&& film.name == item.poster->0->0
            &&& film.url == "https://letterboxd.com"@ + "/film/"@ + item.data->0.item_slug->0
            &&& film.poster == "/poster/"@ + item.data->0.item_slug->0
            &&& film.rating is Some <==> item.rating is Some
            &&& film.rating matches Some(rating) ==> 1 <= rating.0 <= 10 && crate::rating::shown(
                rating,
            ) == crate::text::trimmed(item.rating->0)
        },
{
    if film_of(item) is Ok {
        let id = item.data->0.film_id->0;
        crate::decimal::law_what_is_read_is_denoted(id, u64::MAX as int);
        if item.rating is Some {
            crate::rating::law_read_rating_shows_its_text(item.rating->0);
        }
    }
}

/// An item shows a film as soon as nothing is missing: it has a number of 64 bits, a name in
/// addresses and a title, and any text of a rating shows a rating.
pub proof fn law_items_with_all_parts_show_films(
    item: GridItemView,
    n: nat,
    rating: crate::rating::Rating,
)
    requires
        item.data is Some,
        item.data->0.item_slug is Some,
        item.data->0.film_id is Some,
        crate::decimal::denotes(item.data->0.film_id->0, n),
        n <= u64::MAX,
        item.poster is Some,
        item.poster->0 is Some,
        item.rating is Some ==> 1 <= rating.0 <= 10 && crate::rating::shown(rating)
            == crate::text::trimmed(item.rating->0),
    ensures
        film_of(item) is Ok,
        film_of(item)->Ok_0.id == n,
        item.rating is Some ==> film_of(item)->Ok_0.rating == Some(rating),
{
    crate::decimal::law_numbers_are_read(item.data->0.film_id->0, u64::MAX as int, n);
    if item.rating is Some {
        crate::rating::law_text_is_read_as_what_it_shows(item.rating->0, rating);
    }
}

/// What an item lacks is told by its name, and what is looked for first is told first: the element
/// with the number, the poster, a rating that can be read, the name in addresses, the number, and
/// the title.
pub proof fn law_what_is_lacking_is_told(item: GridItemView)
    ensures
        ({
            let told = |name: Seq<char>|
                film_of(item) == Err::<FilmView, ClientErrorView>(
                    ClientErrorView::Letterboxd(LetterboxdErrorView::HtmlMissingAttr(name)),
                );
            let unread = item.rating is Some && forall|rating: crate::rating::Rating|
                1 <= rating.0 <= 10 ==> #[trigger] crate::rating::shown(rating)
                    != crate::text::trimmed(item.rating->0);
            let unnumbered = item.data is Some && item.data->0.film_id is Some && forall|n: nat|
                #[trigger] crate::decimal::denotes(item.data->0.film_id->0, n) ==> n > u64::MAX;
            &&& item.data is None ==> told("data-film-id"@)
            &&& item.data is Some && item.poster is None ==> told("poster"@)
            &&& item.data is Some && item.poster is Some && unread ==> film_of(item) == Err::<
                FilmView,
                ClientErrorView,
            >(ClientErrorView::UnknownRating(item.rating->0).during(Stage::Rating))
            &&& item.data is Some && item.poster is Some && !unread ==> {
                &&& item.data->0.item_slug is None ==> told("data-item-slug"@)
                &&& item.data->0.item_slug is Some ==> {
                    &&& item.data->0.film_id is None ==> told("data-film-id"@)
                    &&& unnumbered ==> film_of(item) is Err && exists|e|
                        film_of(item)->Err_0 == #[trigger] ClientErrorView::InvalidNumber(e).during(
                            Stage::FilmId,
                        ) && crate::decimal::parsed(item.data->0.film_id->0, u64::MAX as int)
                            == Err::<int, crate::decimal::ParseIntError>(e)
                    &&& item.data->0.film_id is Some && !unnumbered && item.poster->0 is None
                        ==> told("alt"@)
                }
            }
        }),
{
    if item.data is Some && item.poster is Some {
        if item.rating is Some {
            let text = item.rating->0;
            let r = crate::rating::read(text);
            if r is Some {
                crate::rating::law_text_is_read_as_what_it_shows(text, r->0);
            } else {
                assert forall|rating: crate::rating::Rating| 1 <= rating.0 <= 10 implies
                    #[trigger] crate::rating::shown(rating) != crate::text::trimmed(text) by {
                    crate::rating::law_text_is_read_as_what_it_shows(text, rating);
                }
            }
        }
        if item.data->0.film_id is Some {
            let id = item.data->0.film_id->0;
            let max = u64::MAX as int;
            crate::decimal::law_what_is_read_is_denoted(id, max);
            match crate::decimal::parsed(id, max) {
                Ok(n) => {
                    assert(crate::decimal::denotes(id, n as nat));
                },
                Err(e) => {
                    assert forall|n: nat| #[trigger] crate::decimal::denotes(id, n) implies n
                        > u64::MAX by {
                        crate::decimal::law_numbers_are_read(id, max, n);
                    }
                    assert(ClientErrorView::InvalidNumber(e).during(Stage::FilmId)
                        == ClientErrorView::InvalidNumber(e).during(Stage::FilmId));
                },
            }
        }
    }
}

/// A text is read as the rating that it shows, white space around it aside; a text that shows none
/// is told whole.
pub proof fn law_rating_of_a_text(text: Seq<char>, rating: Rating)
    ensures
        rating_of(text) == Ok::<Rating, ClientErrorView>(rating) <==> 1 <= rating.0 <= 10
            && crate::rating::shown(rating) == crate::text::trimmed(text),
        rating_of(text) is Err ==> rating_of(text)->Err_0 == ClientErrorView::UnknownRating(text),
{
    crate::rating::law_text_is_read_as_what_it_shows(text, rating);
}

/// The items on a page are those that the selector of items finds, one for one and in their order.
/// Of each, the first element with the number of the film, the first poster and the first rating
/// count, and of the rating its first text.
pub proof fn law_items_on_a_page(page: Seq<char>)
    ensures
        ({
            let found = selected(
                page,
                "li.griditem"@,
                seq!["div[data-film-id]"@, "div.poster.film-poster img"@, "span.rating"@],
                seq!["data-film-id"@, "data-item-slug"@, "alt"@],
            );
            &&& items_on(page).len() == found.len()
            &&& forall|i: int|
                0 <= i < found.len() ==> {
                    let item = #[trigger] items_on(page)[i];
                    let (data, posters, ratings) = (found[i][0], found[i][1], found[i][2]);
                    &&& item.data is Some <==> data.len() > 0
                    &&& data.len() > 0 ==> item.data->0.film_id == data.first().attributes[0]
                        && item.data->0.item_slug == data.first().attributes[1]
                    &&& item.poster is Some <==> posters.len() > 0
                    &&& posters.len() > 0 ==> item.poster->0 == posters.first().attributes[2]
                    &&& item.rating is Some <==> ratings.len() > 0 && ratings.first().texts.len()
                        > 0
                    &&& item.rating is Some ==> item.rating->0 == ratings.first().texts.first()
                }
        }),
{
    let found = selected(
        page,
        GRID_ITEM_SELECTOR@,
        seq![DATA_SELECTOR@, POSTER_SELECTOR@, RATING_SELECTOR@],
        seq![FILM_ID_ATTRIBUTE@, ITEM_SLUG_ATTRIBUTE@, ALT_ATTRIBUTE@],
    );
    assert(items_on(page) == items_of(found));
}

/// The films of a page can be had exactly when those of its items can; a failure is that of the
/// items, and it is told that the page could not be read.
pub proof fn law_page_is_read_when_its_items_are(items: Seq<GridItemView>)
    ensures
        page_films(items) is Ok <==> forall|i: int|
            0 <= i < items.len() ==> film_of(#[trigger] items[i]) is Ok,
        page_films(items) matches Ok(films) ==> films.len() == items.len() && forall|i: int|
            0 <= i < items.len() ==> film_of(items[i]) == Ok::<FilmView, ClientErrorView>(
                #[trigger] films[i],
            ),
        page_films(items) matches Err(e) ==> exists|i: int|
            0 <= i < items.len() && film_of(#[trigger] items[i]) is Err && e
                == ClientErrorView::While(Stage::PageFilms, Box::new(film_of(items[i])->Err_0))
                && forall|j: int| 0 <= j < i ==> film_of(#[trigger] items[j]) is Ok,
{
    law_films_of_a_page(items);
}

/// The links on a page are those in the first list of pages, in their order, by what stands in them;
/// and there are none where there is no list.
pub proof fn law_links_on_a_page(page: Seq<char>)
    ensures
        ({
            let found = selected(page, "div.pagination"@, seq!["li.paginate-page > a"@], seq![]);
            &&& pagination_on(page) is Some <==> found.len() > 0
            &&& pagination_on(page) matches Some(links) ==> links.len() == found.first()[0].len()
                && forall|i: int|
                0 <= i < links.len() ==> #[trigger] links[i] == found.first()[0][i].inner_html
        }),
{
}

/// There are as many pages as the last link denotes; one where there is no list of pages. A list
/// without links, or whose last link denotes no number, is a failure of its own.
pub proof fn law_number_of_pages(links: Seq<Seq<char>>, n: nat)
    ensures
        page_count(None) == Ok::<int, ClientErrorView>(1),
        links.len() == 0 ==> page_count(Some(links)) == Err::<int, ClientErrorView>(
            ClientErrorView::Letterboxd(LetterboxdErrorView::PaginationElementNotFound),
        ),
        links.len() > 0 ==> (page_count(Some(links)) == Ok::<int, ClientErrorView>(n as int)
            <==> crate::decimal::denotes(links[links.len() - 1], n) && n <= usize::MAX),
        links.len() > 0 ==> (page_count(Some(links)) matches Err(e) ==> crate::decimal::parsed(
            links[links.len() - 1],
            usize::MAX as int,
        ) is Err && e == ClientErrorView::InvalidNumber(
            crate::decimal::parsed(links[links.len() - 1], usize::MAX as int)->Err_0,
        ).during(Stage::PageNumber)),
        page_count(Some(links)) matches Ok(m) ==> m >= 0,
{
    if links.len() > 0 {
        crate::decimal::law_numbers_are_read(links.last(), usize::MAX as int, n);
        crate::decimal::law_what_is_read_is_denoted(links.last(), usize::MAX as int);
    }
}

/// The view of an element and of an item holds what they hold.
pub proof fn law_scrape_views(
    element: Element,
    data: FilmData,
    item: GridItem,
    items: Seq<GridItem>,
    links: Vec<String>,
)
    ensures
        items_view(items).len() == items.len(),
        forall|i: int| 0 <= i < items.len() ==> #[trigger] items_view(items)[i] == items[i]@,
        links_view(None) is None,
        links_view(Some(links)) is Some,
        links_view(Some(links))->0.len() == links@.len(),
        forall|i: int|
            0 <= i < links@.len() ==> #[trigger] links_view(Some(links))->0[i] == links@[i]@,
        element@.inner_html == element.inner_html@,
        element@.attributes.len() == element.attributes@.len(),
        forall|i: int|
            0 <= i < element.attributes@.len() ==> ((#[trigger] element@.attributes[i]) is Some
                <==> element.attributes@[i] is Some) && (element.attributes@[i] is Some
                ==> element@.attributes[i]->0 == element.attributes@[i]->0@),
        element@.texts.len() == element.texts@.len(),
        forall|i: int|
            0 <= i < element.texts@.len() ==> #[trigger] element@.texts[i] == element.texts@[i]@,
        data@.film_id is Some <==> data.film_id is Some,
        data.film_id matches Some(text) ==> data@.film_id == Some(text@),
        data@.item_slug is Some <==> data.item_slug is Some,
        data.item_slug matches Some(text) ==> data@.item_slug == Some(text@),
        item@.data is Some <==> item.data is Some,
        item.data matches Some(d) ==> item@.data == Some(d@),
        item@.poster is Some <==> item.poster is Some,
        item.poster matches Some(None) ==> item@.poster == Some(None::<Seq<char>>),
        item.poster matches Some(Some(alt)) ==> item@.poster == Some(Some(alt@)),
        item@.rating is Some <==> item.rating is Some,
        item.rating matches Some(text) ==> item@.rating == Some(text@),
{
}

} // verus!
