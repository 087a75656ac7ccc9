use vstd::prelude::*;
use crate::json::{price_in, price_in_body, PollError};

verus! {

/// One tracked asset: the name its log lines carry, the endpoint that quotes it, and
/// the object keys that lead from the top of the answer to its price.
#[derive(Clone, Debug)]
pub struct Asset {
    pub name: String,
    pub endpoint: String,
    pub path: Vec<String>,
}

/// An asset as the contracts see it.
pub struct AssetView {
    pub name: Seq<char>,
    pub endpoint: Seq<char>,
    pub path: Seq<Seq<char>>,
}

impl View for Asset {
    type V = AssetView;

    open spec fn view(&self) -> AssetView {
        AssetView {
            name: self.name@,
            endpoint: self.endpoint@,
            path: self.path@.map_values(|k: String| k@),
        }
    }
}

/// A list of assets as the contracts see it.
pub open spec fn assets_view(assets: Seq<Asset>) -> Seq<AssetView> {
    assets.map_values(|a: Asset| a@)
}

/// What an endpoint gave back: nothing at all, or a status and a body.
#[derive(Clone, Debug)]
pub enum Reply {
    Unreachable,
    Answered { status: u16, body: Vec<u8> },
}

/// A 2xx status.
pub open spec fn is_success(status: u16) -> bool {
    200 <= status <= 299
}

/// The price that `reply` gives for an asset whose price sits under `path`.
pub open spec fn reply_outcome(path: Seq<Seq<char>>, reply: Reply) -> Result<Seq<char>, PollError> {
    match reply {
        Reply::Unreachable => Err(PollError::NetworkError),
        Reply::Answered { status, body } => if is_success(status) {
            price_in_body(body@, path)
        } else {
            Err(PollError::NetworkError)
        },
    }
}

/// The separator that closes each cycle in the log.
pub open spec fn separator() -> Seq<char> {
    Seq::new(16, |i: int| '-')
}

/// The log line of one reading.
pub open spec fn line_of(name: Seq<char>, price: Seq<char>) -> Seq<char> {
    name + seq![':', ' '] + price
}

/// Whether an HTTP status counts as success (2xx).
pub fn status_is_success(status: u16) -> (r: bool)
    ensures
        r == is_success(status),
{
    200 <= status && status <= 299
}

/// The price that `reply` carries for `asset`: `NetworkError` for no answer or a
/// status outside 2xx, else what the body holds under the asset's path, which is
/// never negative.
pub fn read_price(asset: &Asset, reply: &Reply) -> (r: Result<String, PollError>)
    ensures
        r matches Ok(p) ==> reply_outcome(asset@.path, *reply) == Ok::<Seq<char>, PollError>(p@),
        r matches Ok(p) ==> p@.len() > 0 && p@[0] != '-',
        r matches Err(e) ==> reply_outcome(asset@.path, *reply) == Err::<Seq<char>, PollError>(e),
{
    match reply {
        Reply::Unreachable => Err(PollError::NetworkError),
        Reply::Answered { status, body } => {
            if status_is_success(*status) {
                price_in(body.as_slice(), &asset.path)
            } else {
                Err(PollError::NetworkError)
            }
        },
    }
}

/// The log line for one reading: `<name>: <price>`.
pub fn price_line(name: &String, price: &String) -> (r: String)
    ensures
        r@ == line_of(name@, price@),
{
    let mut line = name.clone();
    proof {
        reveal_strlit(": ");
    }
    line.append(": ");
    line.append(price.as_str());
    assert(line@ =~= line_of(name@, price@));
    line
}

/// The line of sixteen dashes that ends each cycle.
pub fn separator_line() -> (r: String)
    ensures
        r@ == separator(),
{
    let mut line = String::new();
    let mut i: usize = 0;
    while i < 16
        invariant
            i <= 16,
            line@ == Seq::new(i as nat, |j: int| '-'),
        decreases 16 - i,
    {
        crate::text::push_char(&mut line, '-');
        assert(line@ =~= Seq::new((i + 1) as nat, |j: int| '-'));
        i = i + 1;
    }
    line
}

fn owned(s: &str) -> (r: String)
    ensures
        r@ == s@,
{
    String::from_str(s)
}

fn coingecko_asset(name: &str, id: &str, endpoint: &str) -> (r: Asset)
    ensures
        r@.name == name@,
        r@.endpoint == endpoint@,
        r@.path == seq![id@, "usd"@],
{
    let mut path: Vec<String> = Vec::new();
    path.push(owned(id));
    path.push(owned("usd"));
    let r = Asset { name: owned(name), endpoint: owned(endpoint), path };
    assert(r@.path =~= seq![id@, "usd"@]);
    r
}

/// Bitcoin, Ethereum and the S&P 500, in that order, each quoted in US dollars by
/// CoinGecko's simple price endpoint under `<id>/usd`.
pub fn default_assets() -> (r: Vec<Asset>)
    ensures
        r@.len() == 3,
        r@[0]@.name == "Bitcoin"@,
        r@[0]@.endpoint == "https://api.coingecko.com/api/v3/simple/price?ids=bitcoin&vs_currencies=usd"@,
        r@[0]@.path == seq!["bitcoin"@, "usd"@],
        r@[1]@.name == "Ethereum"@,
        r@[1]@.endpoint == "https://api.coingecko.com/api/v3/simple/price?ids=ethereum&vs_currencies=usd"@,
        r@[1]@.path == seq!["ethereum"@, "usd"@],
        r@[2]@.name == "SP500"@,
        r@[2]@.endpoint == "https://api.coingecko.com/api/v3/simple/price?ids=sp-500&vs_currencies=usd"@,
        r@[2]@.path == seq!["sp-500"@, "usd"@],
{
    let mut assets: Vec<Asset> = Vec::new();
    assets.push(coingecko_asset(
        "Bitcoin",
        "bitcoin",
        "https://api.coingecko.com/api/v3/simple/price?ids=bitcoin&vs_currencies=usd",
    ));
    assets.push(coingecko_asset(
        "Ethereum",
        "ethereum",
        "https://api.coingecko.com/api/v3/simple/price?ids=ethereum&vs_currencies=usd",
    ));
    assets.push(coingecko_asset(
        "SP500",
        "sp-500",
        "https://api.coingecko.com/api/v3/simple/price?ids=sp-500&vs_currencies=usd",
    ));
    assets
}

} // verus!
