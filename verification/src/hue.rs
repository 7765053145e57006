//! The lights of a bridge, and the requests that switch and colour them.
//!
//! Nothing here talks to the bridge: each command yields the requests to
//! send, in the order of the lights.

use crate::colors::{
    adjusted_for_model, brightness_of, chromaticity_x, chromaticity_y, position_text, Position,
    RGB, XY,
};
use crate::json::{quote, quoted_text};
use crate::text::{decimal, decimal_text, shortest_decimal, shortest_decimal_text, str_equal};
use vstd::prelude::*;
use vstd::string::StringSliceAdditionalSpecFns;

verus! {

/// The state of a light, as the bridge reports it. The chromaticity `xy` is
/// in ten-thousandths.
#[derive(Debug, Clone)]
pub struct LightState {
    pub on: bool,
    pub bri: u8,
    pub hue: u16,
    pub sat: u8,
    pub effect: String,
    pub xy: Vec<i64>,
    pub ct: u32,
    pub alert: String,
    pub colormode: String,
    pub reachable: bool,
}

/// A light, as the bridge reports it.
#[derive(Debug, Clone)]
pub struct Light {
    pub state: LightState,
    pub light_type: String,
    pub name: String,
    pub modelid: String,
    pub manufacturername: String,
    pub uniqueid: String,
    pub swversion: String,
}

/// A light under the index by which the bridge knows it.
#[derive(Debug, Clone)]
pub struct IndexedLight {
    pub index: String,
    pub light: Light,
}

/// A colour under a name.
#[derive(Debug, Clone)]
pub struct NamedColor {
    pub name: String,
    pub rgb: RGB,
}

/// A request to put `body` at `url`.
#[derive(Debug, Clone, PartialEq, Eq)]
pub struct Request {
    pub url: String,
    pub body: String,
}

/// The texts of a request.
pub struct RequestText {
    pub url: Seq<char>,
    pub body: Seq<char>,
}

impl View for Request {
    type V = RequestText;

    open spec fn view(&self) -> RequestText {
        RequestText { url: self.url@, body: self.body@ }
    }
}

/// Why a command yields no requests.
#[derive(Debug, Clone, PartialEq, Eq)]
pub enum HueError {
    /// No light has this index.
    NoSuchIndex(String),
    /// No colour has this name.
    ColorNotSet(String),
    /// No light has this name.
    NoSuchName(String),
    /// An answer is not JSON; with what the parser says of it.
    InvalidJson(String),
}

/// The address under which a bridge has its lights.
pub open spec fn lights_address(ip: Seq<char>, token: Seq<char>) -> Seq<char> {
    "http://"@ + ip + "/api/"@ + token + "/lights"@
}

/// The address of the state of the light with an index.
pub open spec fn state_address(base: Seq<char>, index: Seq<char>) -> Seq<char> {
    base + "/"@ + index + "/state"@
}

/// The first place at or above `from` where `lights` has the index, or the
/// length of `lights`.
pub open spec fn place_of(lights: Seq<IndexedLight>, index: Seq<char>, from: int) -> int
    decreases lights.len() - from,
{
    if from < 0 || from >= lights.len() {
        lights.len() as int
    } else if lights[from].index@ == index {
        from
    } else {
        place_of(lights, index, from + 1)
    }
}

/// No two lights have the same index.
pub open spec fn distinct_indices(lights: Seq<IndexedLight>) -> bool {
    forall|i: int, j: int|
        0 <= i < j < lights.len() ==> #[trigger] lights[i].index@ != #[trigger] lights[j].index@
}

/// What singles out `place_of`: the index stands there, and nowhere between
/// `from` and there.
pub proof fn lemma_place_of(lights: Seq<IndexedLight>, index: Seq<char>, from: int)
    requires
        0 <= from <= lights.len(),
    ensures
        from <= place_of(lights, index, from) <= lights.len(),
        place_of(lights, index, from) < lights.len() ==> lights[place_of(
            lights,
            index,
            from,
        )].index@ == index,
        forall|k: int| from <= k < place_of(lights, index, from) ==> lights[k].index@ != index,
    decreases lights.len() - from,
{
    if from < lights.len() && lights[from].index@ != index {
        lemma_place_of(lights, index, from + 1);
    }
}

/// A bridge with its lights.
#[derive(Debug, Clone)]
pub struct Hue {
    ip: String,
    token: String,
    base_address: String,
    lights: Vec<IndexedLight>,
}

impl Hue {
    /// The address is that of the bridge's lights, and no two lights have
    /// the same index.
    pub closed spec fn wf(&self) -> bool {
        &&& self.base_address@ == lights_address(self.ip@, self.token@)
        &&& distinct_indices(self.lights@)
    }

    /// What a well-formed bridge is, in terms of what it shows.
    pub proof fn lemma_wf(&self)
        ensures
            self.wf() <==> self.address_text() == lights_address(self.ip_text(), self.token_text())
                && distinct_indices(self.lights_view()),
    {
    }

    /// The address of the bridge.
    pub closed spec fn ip_text(&self) -> Seq<char> {
        self.ip@
    }

    /// The token with which the bridge is used.
    pub closed spec fn token_text(&self) -> Seq<char> {
        self.token@
    }

    /// The address under which the bridge has its lights.
    pub closed spec fn address_text(&self) -> Seq<char> {
        self.base_address@
    }

    /// The lights in the order in which they came.
    pub closed spec fn lights_view(&self) -> Seq<IndexedLight> {
        self.lights@
    }

    /// A bridge at `ip`, used with `token`, whose lights are not known yet.
    pub fn new(ip: String, token: String) -> (hue: Hue)
        ensures
            hue.wf(),
            hue.ip_text() == ip@,
            hue.token_text() == token@,
            hue.address_text() == lights_address(ip@, token@),
            hue.lights_view().len() == 0,
    {
        let mut base_address = String::from_str("http://");
        base_address.append(ip.as_str());
        base_address.append("/api/");
        base_address.append(token.as_str());
        base_address.append("/lights");
        Hue { ip, token, base_address, lights: Vec::new() }
    }

    pub fn ip(&self) -> (s: &str)
        ensures
            s@ == self.ip_text(),
    {
        self.ip.as_str()
    }

    pub fn token(&self) -> (s: &str)
        ensures
            s@ == self.token_text(),
    {
        self.token.as_str()
    }

    pub fn base_address(&self) -> (s: &str)
        ensures
            s@ == self.address_text(),
    {
        self.base_address.as_str()
    }

    pub fn lights(&self) -> (lights: &Vec<IndexedLight>)
        ensures
            lights@ == self.lights_view(),
    {
        &self.lights
    }

    /// Where the light with an index stands, if there is one.
    pub fn position_of(&self, index: &str) -> (place: Option<usize>)
        ensures
            place is Some <==> place_of(self.lights_view(), index@, 0) < self.lights_view().len(),
            place is Some ==> place->Some_0 == place_of(self.lights_view(), index@, 0),
    {
        let mut i: usize = 0;
        proof {
            lemma_place_of(self.lights@, index@, 0);
        }
        while i < self.lights.len()
            invariant
                i <= self.lights.len(),
                place_of(self.lights@, index@, 0) == place_of(self.lights@, index@, i as int),
            decreases self.lights.len() - i,
        {
            if str_equal(self.lights[i].index.as_str(), index) {
                return Some(i);
            }
            i += 1;
        }
        None
    }

    /// Whether a light has the index.
    pub fn contains_key(&self, index: &str) -> (r: bool)
        ensures
            r == (place_of(self.lights_view(), index@, 0) < self.lights_view().len()),
    {
        self.position_of(index).is_some()
    }

    /// Puts a light under an index. A light that was under that index makes
    /// way for it; else the light comes last.
    pub fn insert_light(&mut self, index: String, light: Light)
        ensures
            old(self).wf() ==> final(self).wf(),
            final(self).ip_text() == old(self).ip_text(),
            final(self).token_text() == old(self).token_text(),
            final(self).address_text() == old(self).address_text(),
            ({
                let place = place_of(old(self).lights_view(), index@, 0);
                let entry = IndexedLight { index, light };
                if place < old(self).lights_view().len() {
                    final(self).lights_view() == old(self).lights_view().update(place, entry)
                } else {
                    final(self).lights_view() == old(self).lights_view().push(entry)
                }
            }),
    {
        proof {
            lemma_place_of(self.lights@, index@, 0);
        }
        match self.position_of(index.as_str()) {
            Some(place) => {
                self.lights[place] = IndexedLight { index, light };
            },
            None => {
                self.lights.push(IndexedLight { index, light });
            },
        }
    }
}

/// The texts of requests.
pub open spec fn requests_view(requests: Seq<Request>) -> Seq<RequestText> {
    requests.map_values(|r: Request| r@)
}

/// The body that switches a light on or off.
pub open spec fn power_body(power: bool) -> Seq<char> {
    if power {
        "{\"on\":true}"@
    } else {
        "{\"on\":false}"@
    }
}

/// A light can be reached and is not yet switched as `power` asks.
pub open spec fn needs_power(light: Light, power: bool) -> bool {
    light.state.reachable && light.state.on != power
}

/// The requests that switch every light that needs it, in the order of the
/// lights.
pub open spec fn power_plan(base: Seq<char>, lights: Seq<IndexedLight>, power: bool) -> Seq<
    RequestText,
>
    decreases lights.len(),
{
    if lights.len() == 0 {
        Seq::empty()
    } else {
        let rest = power_plan(base, lights.drop_last(), power);
        let last = lights.last();
        if needs_power(last.light, power) {
            rest.push(
                RequestText { url: state_address(base, last.index@), body: power_body(power) },
            )
        } else {
            rest
        }
    }
}

/// Some light can be reached and is on.
pub open spec fn any_on(lights: Seq<IndexedLight>) -> bool {
    exists|i: int|
        0 <= i < lights.len() && (#[trigger] lights[i]).light.state.reachable
            && lights[i].light.state.on
}

/// The body that gives a light of a model a colour: its brightness, and its
/// chromaticity adjusted for what the model can show.
pub open spec fn color_body(rgb: RGB, model: Seq<char>) -> Seq<char> {
    "{\"bri\": "@ + decimal(brightness_of(rgb) as nat) + ", \"xy\": "@ + position_text(
        adjusted_for_model(model, Position { x: chromaticity_x(rgb), y: chromaticity_y(rgb) }),
    ) + " }"@
}

/// The request that gives a light a colour.
pub open spec fn color_request(base: Seq<char>, entry: IndexedLight, rgb: RGB) -> RequestText {
    RequestText {
        url: state_address(base, entry.index@),
        body: color_body(rgb, entry.light.modelid@),
    }
}

/// The requests that give every chosen light a colour, in the order of the
/// lights.
pub open spec fn color_plan(
    base: Seq<char>,
    lights: Seq<IndexedLight>,
    rgb: RGB,
    chosen: spec_fn(Light) -> bool,
) -> Seq<RequestText>
    decreases lights.len(),
{
    if lights.len() == 0 {
        Seq::empty()
    } else {
        let rest = color_plan(base, lights.drop_last(), rgb, chosen);
        if chosen(lights.last().light) {
            rest.push(color_request(base, lights.last(), rgb))
        } else {
            rest
        }
    }
}

/// Some light is chosen.
pub open spec fn any_chosen(lights: Seq<IndexedLight>, chosen: spec_fn(Light) -> bool) -> bool {
    exists|i: int| 0 <= i < lights.len() && chosen((#[trigger] lights[i]).light)
}

/// The choice of the lights with a name.
pub open spec fn has_name(name: Seq<char>) -> spec_fn(Light) -> bool {
    |light: Light| light.name@ == name
}

/// The choice of the lights that can be reached.
pub open spec fn is_reachable() -> spec_fn(Light) -> bool {
    |light: Light| light.state.reachable
}

/// The colour of the first entry at or above `from` that has the name.
pub open spec fn color_named(colors: Seq<NamedColor>, name: Seq<char>, from: int) -> Option<RGB>
    decreases colors.len() - from,
{
    if from < 0 || from >= colors.len() {
        None
    } else if colors[from].name@ == name {
        Some(colors[from].rgb)
    } else {
        color_named(colors, name, from + 1)
    }
}

/// Looks a colour up by its name.
pub fn find_color(colors: &Vec<NamedColor>, name: &str) -> (rgb: Option<RGB>)
    ensures
        rgb == color_named(colors@, name@, 0),
{
    let mut i: usize = 0;
    while i < colors.len()
        invariant
            i <= colors.len(),
            color_named(colors@, name@, 0) == color_named(colors@, name@, i as int),
        decreases colors.len() - i,
    {
        if str_equal(colors[i].name.as_str(), name) {
            return Some(colors[i].rgb);
        }
        i += 1;
    }
    None
}

/// The address of the state of a light.
fn state_url(base: &str, index: &str) -> (url: String)
    ensures
        url@ == state_address(base@, index@),
{
    let mut url = String::from_str(base);
    url.append("/");
    url.append(index);
    url.append("/state");
    url
}

/// The request that gives a light a colour.
fn color_request_for(base: &str, entry: &IndexedLight, rgb: RGB) -> (request: Request)
    ensures
        request@ == color_request(base@, *entry, rgb),
{
    let mut xy = XY::from_rgb(rgb);
    xy.adjust_for_model(entry.light.modelid.as_str());
    let mut body = String::from_str("{\"bri\": ");
    body.append(decimal_text(xy.brightness as u64).as_str());
    body.append(", \"xy\": ");
    body.append(xy.xy_string().as_str());
    body.append(" }");
    Request { url: state_url(base, entry.index.as_str()), body }
}

impl Hue {
    /// The requests that switch every light that can be reached and is not
    /// yet as `power` asks.
    pub fn power(&self, power: bool) -> (requests: Vec<Request>)
        ensures
            requests_view(requests@) == power_plan(
                self.address_text(),
                self.lights_view(),
                power,
            ),
    {
        let mut requests: Vec<Request> = Vec::new();
        let mut i: usize = 0;
        assert(requests_view(requests@) =~= Seq::<RequestText>::empty());
        assert(self.lights@.take(0) =~= Seq::<IndexedLight>::empty());
        while i < self.lights.len()
            invariant
                i <= self.lights.len(),
                requests_view(requests@) == power_plan(
                    self.base_address@,
                    self.lights@.take(i as int),
                    power,
                ),
            decreases self.lights.len() - i,
        {
            let entry = &self.lights[i];
            let ghost before = requests@;
            assert(self.lights@.take(i + 1).drop_last() =~= self.lights@.take(i as int));
            if entry.light.state.reachable && entry.light.state.on != power {
                let body = String::from_str(
                    if power {
                        "{\"on\":true}"
                    } else {
                        "{\"on\":false}"
                    },
                );
                let request = Request {
                    url: state_url(self.base_address.as_str(), entry.index.as_str()),
                    body,
                };
                requests.push(request);
                assert(requests_view(requests@) =~= requests_view(before).push(request@));
            }
            i += 1;
        }
        assert(self.lights@.take(i as int) =~= self.lights@);
        requests
    }

    /// Whether some light can be reached and is on.
    pub fn any_light_on(&self) -> (r: bool)
        ensures
            r == any_on(self.lights_view()),
    {
        let mut i: usize = 0;
        while i < self.lights.len()
            invariant
                i <= self.lights.len(),
                forall|k: int|
                    0 <= k < i ==> !((#[trigger] self.lights@[k]).light.state.reachable
                        && self.lights@[k].light.state.on),
            decreases self.lights.len() - i,
        {
            if self.lights[i].light.state.reachable && self.lights[i].light.state.on {
                return true;
            }
            i += 1;
        }
        false
    }

    /// The requests that toggle the lights: where a light is on, those that
    /// switch off every light that is on; where none is, those that switch
    /// on every light.
    pub fn toggle_lights(&self) -> (requests: Vec<Request>)
        ensures
            requests_view(requests@) == power_plan(
                self.address_text(),
                self.lights_view(),
                !any_on(self.lights_view()),
            ),
    {
        let all_off = !self.any_light_on();
        self.power(all_off)
    }

    /// The request that gives the light with an index a colour.
    pub fn set_color_by_index_and_rgb(&self, index: &str, rgb: &RGB) -> (r: Result<
        Request,
        HueError,
    >)
        ensures
            place_of(self.lights_view(), index@, 0) >= self.lights_view().len() ==> (r matches Err(
                HueError::NoSuchIndex(s),
            ) && s@ == index@),
            place_of(self.lights_view(), index@, 0) < self.lights_view().len() ==> (r matches Ok(
                request,
            ) && request@ == color_request(
                self.address_text(),
                self.lights_view()[place_of(self.lights_view(), index@, 0)],
                *rgb,
            )),
    {
        match self.position_of(index) {
            None => Err(HueError::NoSuchIndex(String::from_str(index))),
            Some(place) => Ok(
                color_request_for(self.base_address.as_str(), &self.lights[place], *rgb),
            ),
        }
    }

    /// The request that gives the light with an index the colour with a
    /// name.
    pub fn set_color_by_index_and_color(
        &self,
        index: &str,
        color: &str,
        colors: &Vec<NamedColor>,
    ) -> (r: Result<Request, HueError>)
        ensures
            place_of(self.lights_view(), index@, 0) >= self.lights_view().len() ==> (r matches Err(
                HueError::NoSuchIndex(s),
            ) && s@ == index@),
            place_of(self.lights_view(), index@, 0) < self.lights_view().len() && color_named(
                colors@,
                color@,
                0,
            ) is None ==> (r matches Err(HueError::ColorNotSet(s)) && s@ == color@),
            place_of(self.lights_view(), index@, 0) < self.lights_view().len() && color_named(
                colors@,
                color@,
                0,
            ) is Some ==> (r matches Ok(request) && request@ == color_request(
                self.address_text(),
                self.lights_view()[place_of(self.lights_view(), index@, 0)],
                color_named(colors@, color@, 0)->Some_0,
            )),
    {
        if !self.contains_key(index) {
            return Err(HueError::NoSuchIndex(String::from_str(index)));
        }
        match find_color(colors, color) {
            None => Err(HueError::ColorNotSet(String::from_str(color))),
            Some(rgb) => self.set_color_by_index_and_rgb(index, &rgb),
        }
    }
}

impl Hue {
    /// The requests that give every light with a name the colour with a
    /// name. It is an error if no light has the name, and if a light has it
    /// and the colour is not set.
    pub fn set_color_by_name_and_color(
        &self,
        name: &str,
        color: &str,
        colors: &Vec<NamedColor>,
    ) -> (r: Result<Vec<Request>, HueError>)
        ensures
            !any_chosen(self.lights_view(), has_name(name@)) ==> (r matches Err(
                HueError::NoSuchName(s),
            ) && s@ == name@),
            any_chosen(self.lights_view(), has_name(name@)) && color_named(colors@, color@, 0)
                is None ==> (r matches Err(HueError::ColorNotSet(s)) && s@ == color@),
            any_chosen(self.lights_view(), has_name(name@)) && color_named(colors@, color@, 0)
                is Some ==> (r matches Ok(requests) && requests_view(requests@) == color_plan(
                self.address_text(),
                self.lights_view(),
                color_named(colors@, color@, 0)->Some_0,
                has_name(name@),
            )),
    {
        let found = find_color(colors, color);
        let mut requests: Vec<Request> = Vec::new();
        let mut any = false;
        let mut i: usize = 0;
        assert(requests_view(requests@) =~= Seq::<RequestText>::empty());
        assert(self.lights@.take(0) =~= Seq::<IndexedLight>::empty());
        while i < self.lights.len()
            invariant
                i <= self.lights.len(),
                found == color_named(colors@, color@, 0),
                any == any_chosen(self.lights@.take(i as int), has_name(name@)),
                any ==> found is Some,
                found is Some ==> requests_view(requests@) == color_plan(
                    self.base_address@,
                    self.lights@.take(i as int),
                    found->Some_0,
                    has_name(name@),
                ),
            decreases self.lights.len() - i,
        {
            let entry = &self.lights[i];
            let ghost before = requests@;
            let ghost shorter = self.lights@.take(i as int);
            let ghost longer = self.lights@.take(i + 1);
            assert(longer.drop_last() =~= shorter);
            assert(longer.last() == self.lights@[i as int]);
            if str_equal(entry.light.name.as_str(), name) {
                assert(has_name(name@)(longer[i as int].light));
                match found {
                    None => {
                        assert(self.lights@[i as int] == self.lights_view()[i as int]);
                        assert(has_name(name@)(self.lights_view()[i as int].light));
                        return Err(HueError::ColorNotSet(String::from_str(color)));
                    },
                    Some(rgb) => {
                        let request = color_request_for(self.base_address.as_str(), entry, rgb);
                        requests.push(request);
                        assert(requests_view(requests@) =~= requests_view(before).push(
                            request@,
                        ));
                    },
                }
                any = true;
            } else {
                assert(any_chosen(longer, has_name(name@)) == any_chosen(
                    shorter,
                    has_name(name@),
                )) by {
                    if any_chosen(longer, has_name(name@)) {
                        let k = choose|k: int|
                            0 <= k < longer.len() && has_name(name@)((#[trigger] longer[k]).light);
                        assert(k < i);
                        assert(has_name(name@)(shorter[k].light));
                    }
                    if any_chosen(shorter, has_name(name@)) {
                        let k = choose|k: int|
                            0 <= k < shorter.len() && has_name(name@)(
                                (#[trigger] shorter[k]).light,
                            );
                        assert(has_name(name@)(longer[k].light));
                    }
                }
            }
            i += 1;
        }
        assert(self.lights@.take(i as int) =~= self.lights@);
        if !any {
            return Err(HueError::NoSuchName(String::from_str(name)));
        }
        Ok(requests)
    }

    /// The requests that give every light that can be reached the colour
    /// with a name. It is an error if such a light is there and the colour is
    /// not set.
    pub fn set_all_by_color(&self, color: &str, colors: &Vec<NamedColor>) -> (r: Result<
        Vec<Request>,
        HueError,
    >)
        ensures
            !any_chosen(self.lights_view(), is_reachable()) ==> (r matches Ok(requests)
                && requests@.len() == 0),
            any_chosen(self.lights_view(), is_reachable()) && color_named(colors@, color@, 0)
                is None ==> (r matches Err(HueError::ColorNotSet(s)) && s@ == color@),
            any_chosen(self.lights_view(), is_reachable()) && color_named(colors@, color@, 0)
                is Some ==> (r matches Ok(requests) && requests_view(requests@) == color_plan(
                self.address_text(),
                self.lights_view(),
                color_named(colors@, color@, 0)->Some_0,
                is_reachable(),
            )),
    {
        let found = find_color(colors, color);
        let mut requests: Vec<Request> = Vec::new();
        let mut i: usize = 0;
        assert(requests_view(requests@) =~= Seq::<RequestText>::empty());
        assert(self.lights@.take(0) =~= Seq::<IndexedLight>::empty());
        while i < self.lights.len()
            invariant
                i <= self.lights.len(),
                found == color_named(colors@, color@, 0),
                !any_chosen(self.lights@.take(i as int), is_reachable()) ==> requests@.len() == 0,
                any_chosen(self.lights@.take(i as int), is_reachable()) ==> found is Some,
                found is Some ==> requests_view(requests@) == color_plan(
                    self.base_address@,
                    self.lights@.take(i as int),
                    found->Some_0,
                    is_reachable(),
                ),
            decreases self.lights.len() - i,
        {
            let entry = &self.lights[i];
            let ghost before = requests@;
            let ghost shorter = self.lights@.take(i as int);
            let ghost longer = self.lights@.take(i + 1);
            assert(longer.drop_last() =~= shorter);
            assert(longer.last() == self.lights@[i as int]);
            if entry.light.state.reachable {
                assert(is_reachable()(longer[i as int].light));
                match found {
                    None => {
                        assert(is_reachable()(self.lights_view()[i as int].light));
                        return Err(HueError::ColorNotSet(String::from_str(color)));
                    },
                    Some(rgb) => {
                        let request = color_request_for(self.base_address.as_str(), entry, rgb);
                        requests.push(request);
                        assert(requests_view(requests@) =~= requests_view(before).push(
                            request@,
                        ));
                    },
                }
            } else {
                assert(any_chosen(longer, is_reachable()) == any_chosen(shorter, is_reachable()))
                    by {
                    if any_chosen(longer, is_reachable()) {
                        let k = choose|k: int|
                            0 <= k < longer.len() && is_reachable()((#[trigger] longer[k]).light);
                        assert(k < i);
                        assert(is_reachable()(shorter[k].light));
                    }
                    if any_chosen(shorter, is_reachable()) {
                        let k = choose|k: int|
                            0 <= k < shorter.len() && is_reachable()(
                                (#[trigger] shorter[k]).light,
                            );
                        assert(is_reachable()(longer[k].light));
                    }
                }
            }
            i += 1;
        }
        assert(self.lights@.take(i as int) =~= self.lights@);
        Ok(requests)
    }

    /// The request that switches the light with an index to the other
    /// state, and whether that state is on.
    pub fn toggle_by_index(&self, index: &str) -> (r: Result<(Request, bool), HueError>)
        ensures
            place_of(self.lights_view(), index@, 0) >= self.lights_view().len() ==> (r matches Err(
                HueError::NoSuchIndex(s),
            ) && s@ == index@),
            place_of(self.lights_view(), index@, 0) < self.lights_view().len() ==> (r matches Ok(
                toggled,
            ) && toggled.1 == !self.lights_view()[place_of(
                self.lights_view(),
                index@,
                0,
            )].light.state.on && toggled.0@ == (RequestText {
                url: state_address(self.address_text(), index@),
                body: power_body(toggled.1),
            })),
    {
        proof {
            lemma_place_of(self.lights@, index@, 0);
        }
        match self.position_of(index) {
            None => Err(HueError::NoSuchIndex(String::from_str(index))),
            Some(place) => {
                let entry = &self.lights[place];
                let power = !entry.light.state.on;
                let body = String::from_str(
                    if power {
                        "{\"on\":true}"
                    } else {
                        "{\"on\":false}"
                    },
                );
                let url = state_url(self.base_address.as_str(), entry.index.as_str());
                Ok((Request { url, body }, power))
            },
        }
    }

    /// Where the first light with a name stands, if there is one.
    pub fn position_of_name(&self, name: &str) -> (place: Option<usize>)
        ensures
            place is Some <==> place_of_name(self.lights_view(), name@, 0)
                < self.lights_view().len(),
            place is Some ==> place->Some_0 == place_of_name(self.lights_view(), name@, 0),
    {
        let mut i: usize = 0;
        while i < self.lights.len()
            invariant
                i <= self.lights.len(),
                place_of_name(self.lights@, name@, 0) == place_of_name(
                    self.lights@,
                    name@,
                    i as int,
                ),
            decreases self.lights.len() - i,
        {
            if str_equal(self.lights[i].light.name.as_str(), name) {
                return Some(i);
            }
            i += 1;
        }
        None
    }

    /// The request that switches the first light with a name to the other
    /// state, and whether that state is on.
    pub fn toggle_by_name(&self, name: &str) -> (r: Result<(Request, bool), HueError>)
        ensures
            place_of_name(self.lights_view(), name@, 0) >= self.lights_view().len() ==> (
            r matches Err(HueError::NoSuchName(s)) && s@ == name@),
            place_of_name(self.lights_view(), name@, 0) < self.lights_view().len() ==> (
            r matches Ok(toggled) && toggled.1 == !self.lights_view()[place_of_name(
                self.lights_view(),
                name@,
                0,
            )].light.state.on && toggled.0@ == (RequestText {
                url: state_address(
                    self.address_text(),
                    self.lights_view()[place_of_name(self.lights_view(), name@, 0)].index@,
                ),
                body: power_body(toggled.1),
            })),
    {
        match self.position_of_name(name) {
            None => Err(HueError::NoSuchName(String::from_str(name))),
            Some(place) => {
                let entry = &self.lights[place];
                let power = !entry.light.state.on;
                let body = String::from_str(
                    if power {
                        "{\"on\":true}"
                    } else {
                        "{\"on\":false}"
                    },
                );
                let url = state_url(self.base_address.as_str(), entry.index.as_str());
                Ok((Request { url, body }, power))
            },
        }
    }

    /// The request that gives the light with an index a new name.
    pub fn rename_light(&self, index: &str, name: &str) -> (r: Result<Request, HueError>)
        ensures
            place_of(self.lights_view(), index@, 0) >= self.lights_view().len() ==> (r matches Err(
                HueError::NoSuchIndex(s),
            ) && s@ == index@),
            place_of(self.lights_view(), index@, 0) < self.lights_view().len() ==> (r matches Ok(
                request,
            ) && request@ == (RequestText {
                url: self.address_text() + "/"@ + index@,
                body: name_body(name@),
            })),
    {
        if !self.contains_key(index) {
            return Err(HueError::NoSuchIndex(String::from_str(index)));
        }
        let mut url = String::from_str(self.base_address.as_str());
        url.append("/");
        url.append(index);
        let mut body = String::from_str("{\"name\":");
        body.append(quote(name).as_str());
        body.append("}");
        Ok(Request { url, body })
    }
}

/// The first place at or above `from` where `lights` has a light with the
/// name, or the length of `lights`.
pub open spec fn place_of_name(lights: Seq<IndexedLight>, name: Seq<char>, from: int) -> int
    decreases lights.len() - from,
{
    if from < 0 || from >= lights.len() {
        lights.len() as int
    } else if lights[from].light.name@ == name {
        from
    } else {
        place_of_name(lights, name, from + 1)
    }
}

/// The body that gives a light a name.
pub open spec fn name_body(name: Seq<char>) -> Seq<char> {
    "{\"name\":"@ + quoted_text(name) + "}"@
}

/// The token in what the token file holds: its first 40 bytes, or all of it
/// where it is shorter. There is none where the 40th byte ends inside a
/// character.
pub fn api_token(contents: &str) -> (token: Option<&str>)
    ensures
        contents.len() <= 40 ==> (token matches Some(t) && t@ == contents@),
        contents.len() > 40 && contents.is_char_boundary(40) ==> (token matches Some(t)
            && t.spec_bytes() == contents.spec_bytes().subrange(0, 40)),
        contents.len() > 40 && !contents.is_char_boundary(40) ==> token is None,
{
    if contents.len() <= 40 {
        Some(contents)
    } else if contents.is_char_boundary(40) {
        let parts = contents.split_at(40);
        Some(parts.0)
    } else {
        None
    }
}

/// `true` or `false`.
pub open spec fn bool_text(b: bool) -> Seq<char> {
    if b {
        "true"@
    } else {
        "false"@
    }
}

/// All that is known of a light, one line for each item. The chromaticity
/// is written in decimal.
pub open spec fn light_info(entry: IndexedLight) -> Seq<char> {
    let light = entry.light;
    let state = light.state;
    "Light "@ + entry.index@ + ":\n\tName: "@ + light.name@ + "\n\tType: "@ + light.light_type@
        + "\n\tModel ID: "@ + light.modelid@ + "\n\tManufacturer: "@ + light.manufacturername@
        + "\n\tUnique ID: "@ + light.uniqueid@ + "\n\tSoftware Version: "@ + light.swversion@
        + "\n\tState:\n\t\tOn: "@ + bool_text(state.on) + "\n\t\tBrightness: "@ + decimal(
        state.bri as nat,
    ) + "\n\t\tHue: "@ + decimal(state.hue as nat) + "\n\t\tSaturation: "@ + decimal(
        state.sat as nat,
    ) + "\n\t\tEffect: "@ + state.effect@ + "\n\t\tx: "@ + shortest_decimal(state.xy@[0] as int)
        + "\ty: "@ + shortest_decimal(state.xy@[1] as int) + "\n\t\tColor Temperature: "@ + decimal(
        state.ct as nat,
    ) + "\n\t\tAlert: "@ + state.alert@ + "\n\t\tColor Mode: "@ + state.colormode@
        + "\n\t\tReachable: "@ + bool_text(state.reachable) + "\n"@
}

/// What is known of the lights, one after the other.
pub open spec fn lights_info(lights: Seq<IndexedLight>) -> Seq<char>
    decreases lights.len(),
{
    if lights.len() == 0 {
        Seq::empty()
    } else {
        lights_info(lights.drop_last()) + light_info(lights.last())
    }
}

/// Every light has a chromaticity of two coordinates.
pub open spec fn have_chromaticity(lights: Seq<IndexedLight>) -> bool {
    forall|i: int| 0 <= i < lights.len() ==> (#[trigger] lights[i]).light.state.xy@.len() >= 2
}

fn bool_str(b: bool) -> (s: &'static str)
    ensures
        s@ == bool_text(b),
{
    if b {
        "true"
    } else {
        "false"
    }
}

/// Writes all that is known of a light.
pub fn light_info_text(entry: &IndexedLight) -> (s: String)
    requires
        entry.light.state.xy@.len() >= 2,
    ensures
        s@ == light_info(*entry),
{
    let light = &entry.light;
    let state = &light.state;
    let mut s = String::from_str("Light ");
    s.append(entry.index.as_str());
    s.append(":\n\tName: ");
    s.append(light.name.as_str());
    s.append("\n\tType: ");
    s.append(light.light_type.as_str());
    s.append("\n\tModel ID: ");
    s.append(light.modelid.as_str());
    s.append("\n\tManufacturer: ");
    s.append(light.manufacturername.as_str());
    s.append("\n\tUnique ID: ");
    s.append(light.uniqueid.as_str());
    s.append("\n\tSoftware Version: ");
    s.append(light.swversion.as_str());
    s.append("\n\tState:\n\t\tOn: ");
    s.append(bool_str(state.on));
    s.append("\n\t\tBrightness: ");
    s.append(decimal_text(state.bri as u64).as_str());
    s.append("\n\t\tHue: ");
    s.append(decimal_text(state.hue as u64).as_str());
    s.append("\n\t\tSaturation: ");
    s.append(decimal_text(state.sat as u64).as_str());
    s.append("\n\t\tEffect: ");
    s.append(state.effect.as_str());
    s.append("\n\t\tx: ");
    s.append(shortest_decimal_text(state.xy[0]).as_str());
    s.append("\ty: ");
    s.append(shortest_decimal_text(state.xy[1]).as_str());
    s.append("\n\t\tColor Temperature: ");
    s.append(decimal_text(state.ct as u64).as_str());
    s.append("\n\t\tAlert: ");
    s.append(state.alert.as_str());
    s.append("\n\t\tColor Mode: ");
    s.append(state.colormode.as_str());
    s.append("\n\t\tReachable: ");
    s.append(bool_str(state.reachable));
    s.append("\n");
    s
}

impl Hue {
    /// Whether every light has a chromaticity of two coordinates.
    pub fn lights_have_chromaticity(&self) -> (r: bool)
        ensures
            r == have_chromaticity(self.lights_view()),
    {
        let mut i: usize = 0;
        while i < self.lights.len()
            invariant
                i <= self.lights.len(),
                forall|k: int| 0 <= k < i ==> (#[trigger] self.lights@[k]).light.state.xy@.len() >= 2,
            decreases self.lights.len() - i,
        {
            if self.lights[i].light.state.xy.len() < 2 {
                return false;
            }
            i += 1;
        }
        true
    }

    /// Writes all that is known of the lights.
    pub fn info_text(&self) -> (s: String)
        requires
            have_chromaticity(self.lights_view()),
        ensures
            s@ == lights_info(self.lights_view()),
    {
        let mut s = String::new();
        let mut i: usize = 0;
        assert(self.lights@.take(0) =~= Seq::<IndexedLight>::empty());
        while i < self.lights.len()
            invariant
                i <= self.lights.len(),
                have_chromaticity(self.lights@),
                s@ == lights_info(self.lights@.take(i as int)),
            decreases self.lights.len() - i,
        {
            assert(self.lights@.take(i + 1).drop_last() =~= self.lights@.take(i as int));
            s.append(light_info_text(&self.lights[i]).as_str());
            i += 1;
        }
        assert(self.lights@.take(i as int) =~= self.lights@);
        s
    }
}

} // verus!
