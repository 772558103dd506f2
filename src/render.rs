//! What the menus show: texts and button grids.

use vstd::prelude::*;
use crate::cache::Lookup;
use crate::queries::{response_text, shown_response};
use crate::session::{is_testnet, is_testnet_chain, notice_message, notice_text, text_of, Notice};
use crate::registry::{AssetListRecord, ChainRecord, Endpoint, Explorer, Peer};
use crate::text::{decimal, escape_markdown, escaped, join2, join3, names_of, same_text, u64_text};

verus! {

/// How many chains a page of the chain list shows.
pub const PAGE_SIZE: usize = 18;

/// How many buttons a row of the chain list holds.
pub const ROW_WIDTH: usize = 3;

/// A button: the label it shows and the data it sends back when pressed.
#[derive(Clone, Debug, PartialEq, Eq)]
pub struct Button {
    pub label: String,
    pub data: String,
}

impl View for Button {
    type V = (Seq<char>, Seq<char>);

    open spec fn view(&self) -> (Seq<char>, Seq<char>) {
        (self.label@, self.data@)
    }
}

/// A message to show: its text, a grid of buttons under it, and whether the
/// text is markdown.
#[derive(Clone, Debug, PartialEq, Eq)]
pub struct Render {
    pub text: String,
    pub buttons: Vec<Vec<Button>>,
    pub markdown: bool,
}

/// The labels and data of a grid of buttons, row by row.
pub open spec fn grid_of(b: Seq<Vec<Button>>) -> Seq<Seq<(Seq<char>, Seq<char>)>> {
    b.map_values(|row: Vec<Button>| row@.map_values(|x: Button| x@))
}

/// The chains of `names` that are testnets, if `testnet`, else the others; in order.
pub open spec fn on_network(names: Seq<Seq<char>>, testnet: bool) -> Seq<Seq<char>>
    decreases names.len(),
{
    if names.len() == 0 {
        Seq::empty()
    } else if is_testnet_chain(names.last()) == testnet {
        on_network(names.drop_last(), testnet).push(names.last())
    } else {
        on_network(names.drop_last(), testnet)
    }
}

/// How many pages a list of `len` chains takes.
pub open spec fn total_pages(len: nat) -> nat {
    ((len + (PAGE_SIZE as int) - 1) / (PAGE_SIZE as int)) as nat
}

/// The smaller of two integers.
pub open spec fn min(a: int, b: int) -> int {
    if a <= b {
        a
    } else {
        b
    }
}

/// The chains that page `p` of `items` shows: those from `p * PAGE_SIZE` up to
/// `(p + 1) * PAGE_SIZE`, within the list (none for a page past its end).
pub open spec fn page_items(items: Seq<Seq<char>>, p: nat) -> Seq<Seq<char>> {
    items.subrange(min(p * PAGE_SIZE, items.len() as int), min((p + 1) * PAGE_SIZE, items.len() as int))
}

/// `items` cut into rows of `ROW_WIDTH`, the last row holding what is left.
pub open spec fn rows_of(items: Seq<Seq<char>>) -> Seq<Seq<Seq<char>>> {
    Seq::new(
        ((items.len() + (ROW_WIDTH as int) - 1) / (ROW_WIDTH as int)) as nat,
        |r: int| items.subrange(r * ROW_WIDTH, min(r * ROW_WIDTH + ROW_WIDTH, items.len() as int)),
    )
}

/// The button that selects `chain`; the chain last selected, `last`, is marked.
pub open spec fn select_button(chain: Seq<char>, last: Option<Seq<char>>) -> (Seq<char>, Seq<char>) {
    (if last == Some(chain) {
        "🔴 "@ + chain
    } else {
        chain
    }, "select:"@ + chain)
}

/// Whether page `p` of `len` chains has a previous page.
pub open spec fn has_previous(p: nat) -> bool {
    p > 0
}

/// Whether page `p` of `len` chains has a next page.
pub open spec fn has_next(p: nat, len: nat) -> bool {
    p + 1 < total_pages(len)
}

/// The navigation buttons of page `p` of `len` chains.
pub open spec fn nav_row(p: nat, len: nat) -> Seq<(Seq<char>, Seq<char>)> {
    (if has_previous(p) {
        seq![("← Previous"@, "page:"@ + decimal((p - 1) as nat))]
    } else {
        Seq::empty()
    }) + (if has_next(p, len) {
        seq![("Next →"@, "page:"@ + decimal(p + 1))]
    } else {
        Seq::empty()
    })
}

/// The button that switches to the other network kind.
pub open spec fn toggle_button(testnet: bool) -> (Seq<char>, Seq<char>) {
    if testnet {
        ("Show Mainnets"@, "toggle_testnet:false"@)
    } else {
        ("Show Testnets"@, "toggle_testnet:true"@)
    }
}

/// The button grid of page `p` of the chain list of kind `testnet`: rows of
/// chain buttons (`last` marked), the navigation row if it is not empty, and
/// the toggle.
pub open spec fn page_grid(names: Seq<Seq<char>>, p: nat, testnet: bool, last: Option<Seq<char>>) -> Seq<
    Seq<(Seq<char>, Seq<char>)>,
> {
    let items = on_network(names, testnet);
    let chains = rows_of(page_items(items, p)).map_values(
        |row: Seq<Seq<char>>| row.map_values(|c: Seq<char>| select_button(c, last)),
    );
    let nav = nav_row(p, items.len());
    chains + (if nav.len() > 0 {
        seq![nav]
    } else {
        Seq::empty()
    }) + seq![seq![toggle_button(testnet)]]
}

/// The text above a chain list sent as a new message.
pub open spec fn page_text() -> Seq<char> {
    "Type a chain name, or select from menu:"@
}

/// The text above a chain list of kind `testnet` that replaces an earlier one.
pub open spec fn updated_page_text(testnet: bool) -> Seq<char> {
    if testnet {
        "Select a testnet:"@
    } else {
        "Select a chain:"@
    }
}

/// The chains of `chains` that are testnets, if `testnet`, else the others.
pub fn filter_network(chains: &Vec<String>, testnet: bool) -> (r: Vec<String>)
    ensures
        names_of(r@) == on_network(names_of(chains@), testnet),
{
    let mut out: Vec<String> = Vec::new();
    let mut i: usize = 0;
    while i < chains.len()
        invariant
            i <= chains@.len(),
            names_of(out@) == on_network(names_of(chains@.subrange(0, i as int)), testnet),
        decreases chains.len() - i,
    {
        let c = &chains[i];
        assert(names_of(chains@.subrange(0, i as int + 1)).drop_last() =~= names_of(chains@.subrange(0, i as int)));
        if is_testnet(c.as_str()) == testnet {
            let ghost before = out@;
            out.push(c.clone());
            assert(names_of(out@) =~= names_of(before).push(c@));
        }
        i = i + 1;
    }
    assert(chains@.subrange(0, chains@.len() as int) =~= chains@);
    out
}

fn chain_button(c: &String, last: &Option<String>) -> (r: Button)
    ensures
        r@ == select_button(c@, text_of(*last)),
{
    let marked = match last {
        Some(l) => same_text(l.as_str(), c.as_str()),
        None => false,
    };
    let label = if marked {
        join2("🔴 ", c.as_str())
    } else {
        c.clone()
    };
    Button { label, data: join2("select:", c.as_str()) }
}

fn chain_row(items: &Vec<String>, from: usize, to: usize, last: &Option<String>) -> (r: Vec<Button>)
    requires
        from <= to <= items@.len(),
    ensures
        r@.map_values(|x: Button| x@) == names_of(items@).subrange(from as int, to as int).map_values(
            |c: Seq<char>| select_button(c, text_of(*last)),
        ),
{
    let mut row: Vec<Button> = Vec::new();
    let mut i: usize = from;
    while i < to
        invariant
            from <= i <= to,
            to <= items@.len(),
            row@.map_values(|x: Button| x@) == names_of(items@).subrange(from as int, i as int).map_values(
                |c: Seq<char>| select_button(c, text_of(*last)),
            ),
        decreases to - i,
    {
        let c = &items[i];
        let ghost before = row@;
        let b = chain_button(c, last);
        row.push(b);
        assert(row@.map_values(|x: Button| x@) =~= before.map_values(|x: Button| x@).push(b@));
        assert(names_of(items@).subrange(from as int, i as int + 1) =~= names_of(items@).subrange(
            from as int,
            i as int,
        ).push(c@));
        assert(row@.map_values(|x: Button| x@) =~= names_of(items@).subrange(from as int, i as int + 1).map_values(
            |c: Seq<char>| select_button(c, text_of(*last)),
        ));
        i = i + 1;
    }
    row
}

/// Pagination: a list of `len` chains takes ceil(len / PAGE_SIZE) pages; page
/// `p` shows the chains from `p * PAGE_SIZE` up to `min((p + 1) * PAGE_SIZE, len)`,
/// none past the end; its navigation row has a button to the previous page iff
/// `p > 0`, and one to the next page iff `p < total - 1`.
pub proof fn lemma_pagination(items: Seq<Seq<char>>, p: nat)
    ensures
        ({
            let len = items.len();
            let total = total_pages(len);
            &&& total * PAGE_SIZE >= len
            &&& total > 0 ==> (total - 1) * PAGE_SIZE < len
            &&& p * PAGE_SIZE <= len ==> page_items(items, p) == items.subrange(
                p * PAGE_SIZE,
                min((p + 1) * PAGE_SIZE, len as int),
            )
            &&& p * PAGE_SIZE > len ==> page_items(items, p).len() == 0
            &&& has_previous(p) <==> p > 0
            &&& has_next(p, len) <==> p < total - 1
            &&& nav_row(p, len).len() == (if p > 0 { 1int } else { 0 }) + (if p < total - 1 { 1int } else { 0 })
            &&& p > 0 ==> nav_row(p, len)[0] == ("← Previous"@, "page:"@ + decimal((p - 1) as nat))
            &&& p < total - 1 ==> nav_row(p, len).last() == ("Next →"@, "page:"@ + decimal(p + 1))
        }),
{
    let len = items.len();
    let total = total_pages(len);
    assert(total * 18 >= len && (total > 0 ==> (total - 1) * 18 < len)) by (nonlinear_arith)
        requires
            total == (len + 17) / 18,
    ;
}

proof fn lemma_next_page(p: nat, n: nat)
    ensures
        has_next(p, n) <==> (p + 1) * PAGE_SIZE < n,
{
    assert(has_next(p, n) <==> (p + 1) * 18 < n) by (nonlinear_arith);
}

/// A page of the chain list of kind `is_testnet`, sent as a new message: the
/// chains of that kind on page `page`, three to a row, `last_selected` marked,
/// the buttons to the previous and next pages where there are such pages, and
/// the button to the other kind.
pub fn chain_page(chains: &Vec<String>, page: usize, is_testnet: bool, last_selected: &Option<String>) -> (r: Render)
    ensures
        r.text@ == page_text(),
        grid_of(r.buttons@) == page_grid(names_of(chains@), page as nat, is_testnet, text_of(*last_selected)),
        !r.markdown,
{
    page_render(chains, page, is_testnet, last_selected, String::from_str("Type a chain name, or select from menu:"))
}

/// The same page as `chain_page`, to replace the list shown before.
pub fn chain_page_update(chains: &Vec<String>, page: usize, is_testnet: bool, last_selected: &Option<String>) -> (r: Render)
    ensures
        r.text@ == updated_page_text(is_testnet),
        grid_of(r.buttons@) == page_grid(names_of(chains@), page as nat, is_testnet, text_of(*last_selected)),
        !r.markdown,
{
    let text = if is_testnet {
        String::from_str("Select a testnet:")
    } else {
        String::from_str("Select a chain:")
    };
    page_render(chains, page, is_testnet, last_selected, text)
}

fn page_render(chains: &Vec<String>, page: usize, is_testnet: bool, last_selected: &Option<String>, text: String) -> (r: Render)
    ensures
        r.text == text,
        grid_of(r.buttons@) == page_grid(names_of(chains@), page as nat, is_testnet, text_of(*last_selected)),
        !r.markdown,
{
    let items = filter_network(chains, is_testnet);
    let ghost all = names_of(items@);
    let n = items.len();
    let start: usize = if page <= n / PAGE_SIZE {
        page * PAGE_SIZE
    } else {
        n
    };
    assert(start as int == min(page * PAGE_SIZE, n as int)) by (nonlinear_arith)
        requires
            start == (if page <= n / 18 { page * 18 } else { n as int }),
    ;
    let end: usize = if n - start > PAGE_SIZE {
        start + PAGE_SIZE
    } else {
        n
    };
    assert(end as int == min((page + 1) * PAGE_SIZE, n as int)) by (nonlinear_arith)
        requires
            start as int == min(page * 18, n as int),
            end == (if n - start > 18 { start + 18 } else { n as int }),
    ;
    let ghost shown = page_items(all, page as nat);
    assert(shown =~= all.subrange(start as int, end as int));
    let ghost rows = rows_of(shown);
    let ghost marked = text_of(*last_selected);
    let ghost want = rows.map_values(|row: Seq<Seq<char>>| row.map_values(|c: Seq<char>| select_button(c, marked)));
    let len: usize = end - start;
    let k: usize = (len + 2) / ROW_WIDTH;
    assert(rows.len() == k);
    let mut buttons: Vec<Vec<Button>> = Vec::new();
    let mut r: usize = 0;
    while r < k
        invariant
            start <= end <= n,
            len == end - start,
            len <= PAGE_SIZE,
            k == (len + 2) / 3,
            n == items@.len(),
            all == names_of(items@),
            shown == all.subrange(start as int, end as int),
            rows == rows_of(shown),
            rows.len() == k,
            marked == text_of(*last_selected),
            want == rows.map_values(|row: Seq<Seq<char>>| row.map_values(|c: Seq<char>| select_button(c, marked))),
            r <= k,
            grid_of(buttons@) == want.subrange(0, r as int),
        decreases k - r,
    {
        let from: usize = start + r * ROW_WIDTH;
        let to: usize = if len - r * ROW_WIDTH > ROW_WIDTH {
            from + ROW_WIDTH
        } else {
            end
        };
        let row = chain_row(&items, from, to, last_selected);
        assert(rows[r as int] =~= all.subrange(from as int, to as int));
        let ghost before = buttons@;
        buttons.push(row);
        assert(grid_of(buttons@) =~= grid_of(before).push(row@.map_values(|x: Button| x@)));
        assert(grid_of(buttons@) =~= want.subrange(0, r as int + 1));
        r = r + 1;
    }
    assert(grid_of(buttons@) =~= want);
    let mut nav: Vec<Button> = Vec::new();
    if page > 0 {
        let number = u64_text((page - 1) as u64);
        nav.push(Button { label: String::from_str("← Previous"), data: join2("page:", number.as_str()) });
    }
    proof {
        lemma_next_page(page as nat, n as nat);
    }
    if page < n / PAGE_SIZE && (page + 1) * PAGE_SIZE < n {
        let number = u64_text((page + 1) as u64);
        nav.push(Button { label: String::from_str("Next →"), data: join2("page:", number.as_str()) });
    }
    assert(nav@.map_values(|x: Button| x@) =~= nav_row(page as nat, n as nat));
    let ghost navs = if nav_row(page as nat, n as nat).len() > 0 {
        seq![nav_row(page as nat, n as nat)]
    } else {
        Seq::empty()
    };
    if nav.len() > 0 {
        let ghost before = buttons@;
        buttons.push(nav);
        assert(grid_of(buttons@) =~= grid_of(before).push(nav_row(page as nat, n as nat)));
    }
    assert(grid_of(buttons@) =~= want + navs);
    let toggle = if is_testnet {
        Button { label: String::from_str("Show Mainnets"), data: String::from_str("toggle_testnet:false") }
    } else {
        Button { label: String::from_str("Show Testnets"), data: String::from_str("toggle_testnet:true") }
    };
    let ghost before = buttons@;
    let last = vec![toggle];
    assert(last@.map_values(|x: Button| x@) =~= seq![toggle_button(is_testnet)]);
    buttons.push(last);
    assert(grid_of(buttons@) =~= grid_of(before).push(seq![toggle_button(is_testnet)]));
    assert(n as nat == on_network(names_of(chains@), is_testnet).len());
    assert(grid_of(buttons@) =~= page_grid(names_of(chains@), page as nat, is_testnet, marked));
    Render { text, buttons, markdown: false }
}

/// The button grid of the menu of a chain; testnets have no IBC lookup.
pub open spec fn menu_grid(testnet: bool) -> Seq<Seq<(Seq<char>, Seq<char>)>> {
    seq![
        seq![("1. Chain Info"@, "action:chain_info"@), ("2. Peer Nodes"@, "action:peer_nodes"@)],
        seq![("3. Endpoints"@, "action:endpoints"@), ("4. Block Explorers"@, "action:explorers"@)],
    ] + (if testnet {
        Seq::empty()
    } else {
        seq![seq![("5. IBC-ID"@, "action:ibc_id"@)]]
    }) + seq![
        seq![("6. Pool Incentives"@, "action:pool_incentives"@), ("7. Pool Info"@, "action:pool_info"@)],
        seq![("8. Token Price"@, "action:token_price"@)],
        seq![("← Back"@, "back:chains"@)],
    ]
}

fn button(label: &str, data: &str) -> (r: Button)
    ensures
        r@ == (label@, data@),
{
    Button { label: String::from_str(label), data: String::from_str(data) }
}

/// The menu of `chain`: its name and the buttons of its actions.
pub fn chain_menu(chain: &str) -> (r: Render)
    ensures
        r.text@ == "Selected: "@ + chain@ + "\n\nChoose an action:"@,
        grid_of(r.buttons@) == menu_grid(is_testnet_chain(chain@)),
        !r.markdown,
{
    let mut buttons: Vec<Vec<Button>> = Vec::new();
    buttons.push(vec![button("1. Chain Info", "action:chain_info"), button("2. Peer Nodes", "action:peer_nodes")]);
    buttons.push(vec![button("3. Endpoints", "action:endpoints"), button("4. Block Explorers", "action:explorers")]);
    let testnet = is_testnet(chain);
    if !testnet {
        buttons.push(vec![button("5. IBC-ID", "action:ibc_id")]);
    }
    buttons.push(
        vec![button("6. Pool Incentives", "action:pool_incentives"), button("7. Pool Info", "action:pool_info")],
    );
    buttons.push(vec![button("8. Token Price", "action:token_price")]);
    buttons.push(vec![button("← Back", "back:chains")]);
    assert(grid_of(buttons@) =~~= menu_grid(testnet));
    Render { text: join3("Selected: ", chain, "\n\nChoose an action:"), buttons, markdown: false }
}

/// A provider's label, or `unknown`.
pub open spec fn provider_label(p: Option<String>) -> Seq<char> {
    match p {
        Some(x) => x@,
        None => "unknown"@,
    }
}

/// The lines that show an endpoint.
pub open spec fn endpoint_entry(e: Endpoint) -> Seq<char> {
    "*"@ + escaped(provider_label(e.provider)) + "*:\n`"@ + escaped(e.address@) + "`\n\n"@
}

/// The lines that show a seed node.
pub open spec fn seed_entry(p: Peer) -> Seq<char> {
    "*"@ + escaped(provider_label(p.provider)) + "*:\nid: `"@ + escaped(p.id@) + "`\nURL: `"@ + escaped(
        p.address@,
    ) + "`\n\n"@
}

/// The lines that show a persistent peer.
pub open spec fn peer_entry(p: Peer) -> Seq<char> {
    "id: `"@ + escaped(p.id@) + "`\nURL: `"@ + escaped(p.address@) + "`\n\n"@
}

/// The lines that show a block explorer.
pub open spec fn explorer_entry(x: Explorer) -> Seq<char> {
    "*"@ + escaped(x.kind@) + "*:\n`"@ + escaped(x.url@) + "`\n\n"@
}

/// The entries of `s`, one after the other.
pub open spec fn entries<T>(s: Seq<T>, f: spec_fn(T) -> Seq<char>) -> Seq<char>
    decreases s.len(),
{
    if s.len() == 0 {
        Seq::empty()
    } else {
        entries(s.drop_last(), f) + f(s.last())
    }
}

/// The first `n` of `s`, or all of it if it is shorter.
pub open spec fn first_n<T>(s: Seq<T>, n: nat) -> Seq<T> {
    if s.len() <= n {
        s
    } else {
        s.subrange(0, n as int)
    }
}

/// How many entries of each kind a display lists at most.
pub const LIST_LIMIT: usize = 5;

fn provider_text(p: &Option<String>) -> (r: String)
    ensures
        r@ == escaped(provider_label(*p)),
{
    match p {
        Some(x) => escape_markdown(x.as_str()),
        None => escape_markdown("unknown"),
    }
}

fn endpoint_text(e: &Endpoint) -> (r: String)
    ensures
        r@ == endpoint_entry(*e),
{
    let mut t = String::from_str("*");
    t.append(provider_text(&e.provider).as_str());
    t.append("*:\n`");
    t.append(escape_markdown(e.address.as_str()).as_str());
    t.append("`\n\n");
    t
}

fn seed_text(p: &Peer) -> (r: String)
    ensures
        r@ == seed_entry(*p),
{
    let mut t = String::from_str("*");
    t.append(provider_text(&p.provider).as_str());
    t.append("*:\nid: `");
    t.append(escape_markdown(p.id.as_str()).as_str());
    t.append("`\nURL: `");
    t.append(escape_markdown(p.address.as_str()).as_str());
    t.append("`\n\n");
    t
}

fn peer_text(p: &Peer) -> (r: String)
    ensures
        r@ == peer_entry(*p),
{
    let mut t = String::from_str("id: `");
    t.append(escape_markdown(p.id.as_str()).as_str());
    t.append("`\nURL: `");
    t.append(escape_markdown(p.address.as_str()).as_str());
    t.append("`\n\n");
    t
}

fn explorer_text(x: &Explorer) -> (r: String)
    ensures
        r@ == explorer_entry(*x),
{
    let mut t = String::from_str("*");
    t.append(escape_markdown(x.kind.as_str()).as_str());
    t.append("*:\n`");
    t.append(escape_markdown(x.url.as_str()).as_str());
    t.append("`\n\n");
    t
}

fn append_endpoints(t: &mut String, list: &Vec<Endpoint>)
    ensures
        final(t)@ == old(t)@ + entries(first_n(list@, LIST_LIMIT as nat), |e: Endpoint| endpoint_entry(e)),
{
    let n: usize = if list.len() < LIST_LIMIT {
        list.len()
    } else {
        LIST_LIMIT
    };
    let ghost start = t@;
    let mut i: usize = 0;
    while i < n
        invariant
            n <= list@.len(),
            i <= n,
            first_n(list@, LIST_LIMIT as nat) == list@.subrange(0, n as int),
            t@ == start + entries(list@.subrange(0, i as int), |e: Endpoint| endpoint_entry(e)),
        decreases n - i,
    {
        let piece = endpoint_text(&list[i]);
        assert(list@.subrange(0, i as int + 1).drop_last() =~= list@.subrange(0, i as int));
        t.append(piece.as_str());
        i = i + 1;
    }
}

fn append_seeds(t: &mut String, list: &Vec<Peer>)
    ensures
        final(t)@ == old(t)@ + entries(first_n(list@, LIST_LIMIT as nat), |p: Peer| seed_entry(p)),
{
    let n: usize = if list.len() < LIST_LIMIT {
        list.len()
    } else {
        LIST_LIMIT
    };
    let ghost start = t@;
    let mut i: usize = 0;
    while i < n
        invariant
            n <= list@.len(),
            i <= n,
            first_n(list@, LIST_LIMIT as nat) == list@.subrange(0, n as int),
            t@ == start + entries(list@.subrange(0, i as int), |p: Peer| seed_entry(p)),
        decreases n - i,
    {
        let piece = seed_text(&list[i]);
        assert(list@.subrange(0, i as int + 1).drop_last() =~= list@.subrange(0, i as int));
        t.append(piece.as_str());
        i = i + 1;
    }
}

fn append_peers(t: &mut String, list: &Vec<Peer>)
    ensures
        final(t)@ == old(t)@ + entries(first_n(list@, LIST_LIMIT as nat), |p: Peer| peer_entry(p)),
{
    let n: usize = if list.len() < LIST_LIMIT {
        list.len()
    } else {
        LIST_LIMIT
    };
    let ghost start = t@;
    let mut i: usize = 0;
    while i < n
        invariant
            n <= list@.len(),
            i <= n,
            first_n(list@, LIST_LIMIT as nat) == list@.subrange(0, n as int),
            t@ == start + entries(list@.subrange(0, i as int), |p: Peer| peer_entry(p)),
        decreases n - i,
    {
        let piece = peer_text(&list[i]);
        assert(list@.subrange(0, i as int + 1).drop_last() =~= list@.subrange(0, i as int));
        t.append(piece.as_str());
        i = i + 1;
    }
}

fn append_explorers(t: &mut String, list: &Vec<Explorer>)
    ensures
        final(t)@ == old(t)@ + entries(list@, |x: Explorer| explorer_entry(x)),
{
    let ghost start = t@;
    let mut i: usize = 0;
    while i < list.len()
        invariant
            i <= list@.len(),
            t@ == start + entries(list@.subrange(0, i as int), |x: Explorer| explorer_entry(x)),
        decreases list.len() - i,
    {
        let piece = explorer_text(&list[i]);
        assert(list@.subrange(0, i as int + 1).drop_last() =~= list@.subrange(0, i as int));
        t.append(piece.as_str());
        i = i + 1;
    }
    assert(list@.subrange(0, list@.len() as int) =~= list@);
}

/// The display of a chain's peer nodes: at most five seeds and five persistent peers.
pub open spec fn peers_display(c: ChainRecord) -> Seq<char> {
    "*Seed Nodes*\n\\-\\-\\-\\-\\-\\-\\-\\-\\-\\-\n"@ + entries(
        first_n(c.seeds@, LIST_LIMIT as nat),
        |p: Peer| seed_entry(p),
    ) + "\n*Persistent Peers*\n\\-\\-\\-\\-\\-\\-\\-\\-\\-\\-\\-\\-\\-\\-\\-\n"@ + entries(
        first_n(c.persistent_peers@, LIST_LIMIT as nat),
        |p: Peer| peer_entry(p),
    )
}

/// The display of a chain's endpoints: at most five of each of RPC, REST and gRPC.
pub open spec fn endpoints_display(c: ChainRecord) -> Seq<char> {
    "*RPC*\n\\-\\-\\-\n"@ + entries(first_n(c.rpc@, LIST_LIMIT as nat), |e: Endpoint| endpoint_entry(e))
        + "\n*REST*\n\\-\\-\\-\\-\n"@ + entries(first_n(c.rest@, LIST_LIMIT as nat), |e: Endpoint| endpoint_entry(e))
        + "\n*GRPC*\n\\-\\-\\-\\-\n"@ + entries(first_n(c.grpc@, LIST_LIMIT as nat), |e: Endpoint| endpoint_entry(e))
}

/// The display of a chain's block explorers, all of them.
pub open spec fn explorers_display(c: ChainRecord) -> Seq<char> {
    "*Block Explorers*\n\\-\\-\\-\\-\\-\\-\\-\\-\\-\\-\\-\\-\\-\\-\\-\n\n"@ + entries(
        c.explorers@,
        |x: Explorer| explorer_entry(x),
    )
}

/// The markdown display of a chain's peer nodes.
pub fn peer_nodes_text(c: &ChainRecord) -> (r: String)
    ensures
        r@ == peers_display(*c),
{
    let mut t = String::from_str("*Seed Nodes*\n\\-\\-\\-\\-\\-\\-\\-\\-\\-\\-\n");
    append_seeds(&mut t, &c.seeds);
    t.append("\n*Persistent Peers*\n\\-\\-\\-\\-\\-\\-\\-\\-\\-\\-\\-\\-\\-\\-\\-\n");
    append_peers(&mut t, &c.persistent_peers);
    t
}

/// The markdown display of a chain's endpoints.
pub fn endpoints_text(c: &ChainRecord) -> (r: String)
    ensures
        r@ == endpoints_display(*c),
{
    let mut t = String::from_str("*RPC*\n\\-\\-\\-\n");
    append_endpoints(&mut t, &c.rpc);
    t.append("\n*REST*\n\\-\\-\\-\\-\n");
    append_endpoints(&mut t, &c.rest);
    t.append("\n*GRPC*\n\\-\\-\\-\\-\n");
    append_endpoints(&mut t, &c.grpc);
    t
}

/// The markdown display of a chain's block explorers.
pub fn explorers_text(c: &ChainRecord) -> (r: String)
    ensures
        r@ == explorers_display(*c),
{
    let mut t = String::from_str("*Block Explorers*\n\\-\\-\\-\\-\\-\\-\\-\\-\\-\\-\\-\\-\\-\\-\\-\n\n");
    append_explorers(&mut t, &c.explorers);
    t
}

/// `s`, or `Unknown` where there is none.
pub open spec fn or_unknown(s: Option<Seq<char>>) -> Seq<char> {
    match s {
        Some(x) => x,
        None => "Unknown"@,
    }
}

/// The first staking denom of a chain.
pub open spec fn base_denom(c: ChainRecord) -> Option<Seq<char>> {
    if c.staking_denoms@.len() > 0 {
        Some(c.staking_denoms@[0]@)
    } else {
        None
    }
}

/// The URL of a chain's first block explorer.
pub open spec fn first_explorer(c: ChainRecord) -> Option<Seq<char>> {
    if c.explorers@.len() > 0 {
        Some(c.explorers@[0].url@)
    } else {
        None
    }
}

/// The decimals of a chain's first asset: the exponent of its last denom unit.
pub open spec fn decimals_of(a: AssetListRecord) -> Option<u16> {
    if a.assets@.len() > 0 && a.assets@[0].denom_units@.len() > 0 {
        Some(a.assets@[0].denom_units@.last().exponent)
    } else {
        None
    }
}

/// The address of a chosen endpoint, as text.
pub open spec fn address_of(a: Option<String>) -> Option<Seq<char>> {
    match a {
        Some(x) => Some(x@),
        None => None,
    }
}

/// The display of a chain's summary, with the live RPC and REST endpoints
/// chosen for it (`None` where none is live).
pub open spec fn info_display(c: ChainRecord, a: AssetListRecord, rpc: Option<String>, rest: Option<String>) -> Seq<char> {
    "🔗 *"@ + escaped(c.pretty_name@) + "*\n\nChain ID: `"@ + escaped(c.chain_id@) + "`\nChain Name: `"@
        + escaped(c.chain_name@) + "`\nRPC: `"@ + escaped(or_unknown(address_of(rpc))) + "`\nREST: `"@
        + escaped(or_unknown(address_of(rest))) + "`\nAddress Prefix: `"@ + escaped(c.bech32_prefix@)
        + "`\nBase Denom: `"@ + escaped(or_unknown(base_denom(c))) + "`\nCointype: `"@ + decimal(
        c.slip44 as nat,
    ) + "`\nDecimals: `"@ + (match decimals_of(a) {
        Some(d) => decimal(d as nat),
        None => "Unknown"@,
    }) + "`\nBlock Explorer: `"@ + escaped(or_unknown(first_explorer(c))) + "`"@
}

fn escaped_or_unknown(s: Option<&String>) -> (r: String)
    ensures
        r@ == escaped(
            or_unknown(
                match s {
                    Some(x) => Some(x@),
                    None => None,
                },
            ),
        ),
{
    match s {
        Some(x) => escape_markdown(x.as_str()),
        None => escape_markdown("Unknown"),
    }
}

fn decimals_text(a: &AssetListRecord) -> (r: String)
    ensures
        r@ == match decimals_of(*a) {
            Some(d) => decimal(d as nat),
            None => "Unknown"@,
        },
{
    if a.assets.len() > 0 {
        let units = &a.assets[0].denom_units;
        if units.len() > 0 {
            return u64_text(units[units.len() - 1].exponent as u64);
        }
    }
    String::from_str("Unknown")
}

/// The markdown display of a chain's summary.
pub fn chain_info_text(c: &ChainRecord, a: &AssetListRecord, rpc: &Option<String>, rest: &Option<String>) -> (r: String)
    ensures
        r@ == info_display(*c, *a, *rpc, *rest),
{
    let base = if c.staking_denoms.len() > 0 {
        Some(&c.staking_denoms[0])
    } else {
        None
    };
    let explorer = if c.explorers.len() > 0 {
        Some(&c.explorers[0].url)
    } else {
        None
    };
    let mut t = String::from_str("🔗 *");
    t.append(escape_markdown(c.pretty_name.as_str()).as_str());
    t.append("*\n\nChain ID: `");
    t.append(escape_markdown(c.chain_id.as_str()).as_str());
    t.append("`\nChain Name: `");
    t.append(escape_markdown(c.chain_name.as_str()).as_str());
    t.append("`\nRPC: `");
    t.append(escaped_or_unknown(rpc.as_ref()).as_str());
    t.append("`\nREST: `");
    t.append(escaped_or_unknown(rest.as_ref()).as_str());
    t.append("`\nAddress Prefix: `");
    t.append(escape_markdown(c.bech32_prefix.as_str()).as_str());
    t.append("`\nBase Denom: `");
    t.append(escaped_or_unknown(base).as_str());
    t.append("`\nCointype: `");
    t.append(u64_text(c.slip44 as u64).as_str());
    t.append("`\nDecimals: `");
    t.append(decimals_text(a).as_str());
    t.append("`\nBlock Explorer: `");
    t.append(escaped_or_unknown(explorer).as_str());
    t.append("`");
    t
}

/// The message that reports that a chain's records were not found.
pub fn chain_not_found_text(chain: &str) -> (r: String)
    ensures
        r@ == "Chain "@ + chain@ + " not found"@,
{
    join3("Chain ", chain, " not found")
}

/// A fixed message, as plain text without buttons.
pub fn notice_render(n: Notice) -> (r: Render)
    ensures
        r.text@ == notice_message(n),
        r.buttons@.len() == 0,
        !r.markdown,
{
    Render { text: notice_text(n), buttons: Vec::new(), markdown: false }
}

/// The record that a lookup of `chain` gave, or what is shown in its place:
/// that the chain was not found where upstream has no such record, the failure
/// notice where the lookup failed.
pub fn ready_or_problem<T>(chain: &str, l: Lookup<T>) -> (r: Result<T, Render>)
    ensures
        match l {
            Lookup::Ready(x) => r == Ok::<T, Render>(x),
            Lookup::Missing => r is Err && r->Err_0.text@ == "Chain "@ + chain@ + " not found"@
                && r->Err_0.buttons@.len() == 0 && !r->Err_0.markdown,
            _ => r is Err && r->Err_0.text@ == notice_message(Notice::LookupFailed) && r->Err_0.buttons@.len() == 0
                && !r->Err_0.markdown,
        },
{
    match l {
        Lookup::Ready(x) => Ok(x),
        Lookup::Missing => Err(Render { text: chain_not_found_text(chain), buttons: Vec::new(), markdown: false }),
        _ => Err(notice_render(Notice::LookupFailed)),
    }
}

/// A page of the chain list (`update`: replacing the one shown before), or the
/// failure notice where the list could not be had.
pub fn page_or_failure(
    chains: &Option<Vec<String>>,
    page: usize,
    is_testnet: bool,
    last_selected: &Option<String>,
    update: bool,
) -> (r: Render)
    ensures
        match *chains {
            Some(v) => {
                &&& r.text@ == if update {
                    updated_page_text(is_testnet)
                } else {
                    page_text()
                }
                &&& grid_of(r.buttons@) == page_grid(names_of(v@), page as nat, is_testnet, text_of(*last_selected))
                &&& !r.markdown
            },
            None => r.text@ == notice_message(Notice::LookupFailed) && r.buttons@.len() == 0 && !r.markdown,
        },
{
    match chains {
        Some(v) => if update {
            chain_page_update(v, page, is_testnet, last_selected)
        } else {
            chain_page(v, page, is_testnet, last_selected)
        },
        None => notice_render(Notice::LookupFailed),
    }
}

/// A query's response as shown, or the failure notice where there is none.
pub fn query_render(body: &Option<String>) -> (r: Render)
    ensures
        match *body {
            Some(b) => r.text@ == shown_response(b@),
            None => r.text@ == notice_message(Notice::LookupFailed),
        },
        r.buttons@.len() == 0,
        !r.markdown,
{
    match body {
        Some(b) => Render { text: response_text(b.as_str()), buttons: Vec::new(), markdown: false },
        None => notice_render(Notice::LookupFailed),
    }
}

} // verus!
