//! The frame of bars that the render poller refreshes on every tick, with the
//! mirroring transform and the bookkeeping of its rasterization cache.

use vstd::prelude::*;

verus! {

/// The number of samples that mirroring puts in front of `len` magnitudes:
/// one for each even position.
pub open spec fn reflected_len(len: nat) -> nat {
    (len + 1) / 2
}

/// The reflect transform: the magnitudes at the even positions of `data`, the
/// highest position first, followed by `data` itself.
pub open spec fn mirrored<T>(data: Seq<T>) -> Seq<T> {
    Seq::new(
        reflected_len(data.len()),
        |j: int| data[2 * (reflected_len(data.len()) - 1 - j)],
    ) + data
}

/// The transform as it is carried out: each of `steps` iterations puts the
/// sample at twice its number, counted in the received sequence, in front of
/// what has grown so far.
pub open spec fn reflect_steps<T>(data: Seq<T>, steps: nat) -> Seq<T>
    decreases steps,
{
    if steps == 0 {
        data
    } else {
        seq![data[2 * (steps - 1)]] + reflect_steps(data, (steps - 1) as nat)
    }
}

/// After `steps` iterations the output holds the even-positioned samples met
/// so far, last first, and then the received sequence.
pub proof fn lemma_reflect_steps<T>(data: Seq<T>, steps: nat)
    ensures
        reflect_steps(data, steps) == Seq::new(steps, |j: int| data[2 * (steps - 1 - j)]) + data,
    decreases steps,
{
    if steps > 0 {
        lemma_reflect_steps(data, (steps - 1) as nat);
    }
}

/// The transform is its iterations, as many as there are even positions in
/// the received sequence. It keeps the received magnitudes at its
/// end and is longer than them by half their number, rounded up.
pub proof fn lemma_mirrored_is_iterated<T>(data: Seq<T>)
    ensures
        mirrored(data) == reflect_steps(data, reflected_len(data.len())),
        mirrored(data).len() == data.len() + reflected_len(data.len()),
        mirrored(data).subrange(reflected_len(data.len()) as int, mirrored(data).len() as int)
            == data,
{
    lemma_reflect_steps(data, reflected_len(data.len()));
}

/// An iteration takes place exactly where the double of its number is a
/// position of the received sequence.
pub proof fn lemma_reflected_positions(len: nat, i: nat)
    ensures
        2 * i < len <==> i < reflected_len(len),
{
}

/// Applies the reflect transform to a received magnitude sequence.
pub fn mirror<T: Copy>(data: &Vec<T>) -> (out: Vec<T>)
    ensures
        out@ == mirrored(data@),
{
    let n = data.len();
    let k = n / 2 + n % 2;
    let mut out: Vec<T> = Vec::new();
    let mut j = k;
    while j > 0
        invariant
            n == data@.len(),
            k == reflected_len(n as nat),
            j <= k,
            out@ == Seq::new((k - j) as nat, |m: int| data@[2 * (k - 1 - m)]),
        decreases j,
    {
        j = j - 1;
        out.push(data[2 * j]);
    }
    let mut i: usize = 0;
    while i < n
        invariant
            n == data@.len(),
            i <= n,
            out@ == Seq::new(k as nat, |m: int| data@[2 * (k - 1 - m)]) + data@.subrange(
                0,
                i as int,
            ),
        decreases n - i,
    {
        out.push(data[i]);
        i = i + 1;
    }
    out
}

/// With four magnitudes two iterations take place: the first and the third
/// magnitude come to stand in front, the third first.
pub proof fn lemma_mirrored_four<T>(a0: T, a1: T, a2: T, a3: T)
    ensures
        mirrored(seq![a0, a1, a2, a3]) == seq![a2, a0, a0, a1, a2, a3],
{
    let data = seq![a0, a1, a2, a3];
    assert(reflected_len(data.len()) == 2);
    assert(mirrored(data) =~= seq![a2, a0, a0, a1, a2, a3]);
}

/// What a rasterization shows: the magnitudes and the parameters it was
/// painted with.
pub struct Picture<T> {
    pub magnitudes: Seq<T>,
    pub mirroring: bool,
    pub width: u8,
    pub r: u8,
    pub g: u8,
    pub b: u8,
}

/// The mathematical content of a [`Bars`] frame.
pub struct BarsView<T> {
    /// The picture that the next paint pass has to show.
    pub picture: Picture<T>,
    /// What the rasterization cache holds, `None` while it is empty.
    pub cache: Option<Picture<T>>,
}

/// What can happen to a frame.
pub enum FrameOp<T> {
    /// A tick of the render poller, with the magnitudes it received.
    Tick(Seq<T>),
    /// A paint pass.
    Paint,
    /// Mirroring is switched on or off.
    Mirroring(bool),
    /// The bar width is set.
    Width(u8),
    /// The colour is set.
    Color(u8, u8, u8),
}

impl<T> BarsView<T> {
    /// The cache is never stale: it is empty or holds the current picture.
    pub open spec fn coherent(self) -> bool {
        self.cache is Some ==> self.cache == Some(self.picture)
    }

    /// The frame after a tick that received `received`: the cache is empty,
    /// and the magnitudes are the received ones, mirrored where mirroring is
    /// switched on.
    pub open spec fn ticked(self, received: Seq<T>) -> BarsView<T> {
        BarsView {
            picture: Picture {
                magnitudes: if self.picture.mirroring {
                    mirrored(received)
                } else {
                    received
                },
                ..self.picture
            },
            cache: None,
        }
    }

    /// The frame after a paint pass: an empty cache is filled with the
    /// current picture, a filled one is kept.
    pub open spec fn painted(self) -> BarsView<T> {
        BarsView {
            picture: self.picture,
            cache: if self.cache is None {
                Some(self.picture)
            } else {
                self.cache
            },
        }
    }

    /// The frame with other painting parameters: the cache is empty.
    pub open spec fn restyled(self, mirroring: bool, width: u8, r: u8, g: u8, b: u8) -> BarsView<
        T,
    > {
        BarsView {
            picture: Picture { mirroring, width, r, g, b, magnitudes: self.picture.magnitudes },
            cache: None,
        }
    }

    /// The frame after `op`.
    pub open spec fn after(self, op: FrameOp<T>) -> BarsView<T> {
        let p = self.picture;
        match op {
            FrameOp::Tick(received) => self.ticked(received),
            FrameOp::Paint => self.painted(),
            FrameOp::Mirroring(on) => self.restyled(on, p.width, p.r, p.g, p.b),
            FrameOp::Width(width) => self.restyled(p.mirroring, width, p.r, p.g, p.b),
            FrameOp::Color(r, g, b) => self.restyled(p.mirroring, p.width, r, g, b),
        }
    }

    /// The frame after `ops`, one after the other.
    pub open spec fn replay(self, ops: Seq<FrameOp<T>>) -> BarsView<T>
        decreases ops.len(),
    {
        if ops.len() == 0 {
            self
        } else {
            self.replay(ops.drop_last()).after(ops.last())
        }
    }
}

/// Whatever happens to a frame, in whatever order, its cache is empty or
/// shows the magnitudes of the latest tick with the parameters now in force:
/// nothing older is ever shown.
pub proof fn lemma_cache_never_stale<T>(frame: BarsView<T>, ops: Seq<FrameOp<T>>)
    requires
        frame.coherent(),
    ensures
        frame.replay(ops).coherent(),
    decreases ops.len(),
{
    if ops.len() > 0 {
        lemma_cache_never_stale(frame, ops.drop_last());
    }
}

/// A tick leaves the cache empty, and the paint pass after it fills the
/// cache with the picture of that tick.
pub proof fn lemma_tick_then_paint<T>(frame: BarsView<T>, received: Seq<T>)
    ensures
        frame.ticked(received).cache is None,
        frame.ticked(received).painted().cache == Some(frame.ticked(received).picture),
{
}

/// The render poller's frame: the bar magnitudes last received, the
/// parameters they are painted with, and the state of the rasterization
/// cache.
pub struct Bars<T> {
    data: Vec<T>,
    mirroring: bool,
    width: u8,
    r: u8,
    g: u8,
    b: u8,
    cached: bool,
    painted: Ghost<Picture<T>>,
}

impl<T> View for Bars<T> {
    type V = BarsView<T>;

    closed spec fn view(&self) -> BarsView<T> {
        BarsView {
            picture: Picture {
                magnitudes: self.data@,
                mirroring: self.mirroring,
                width: self.width,
                r: self.r,
                g: self.g,
                b: self.b,
            },
            cache: if self.cached {
                Some(self.painted@)
            } else {
                None
            },
        }
    }
}

impl<T> Default for Bars<T> {
    /// An empty frame in red, full bar width, mirroring switched on, nothing
    /// cached.
    fn default() -> (bars: Self)
        ensures
            bars@ == Bars::<T>::spec_default(),
    {
        let data: Vec<T> = Vec::new();
        Bars {
            data,
            mirroring: true,
            width: 10,
            r: 255,
            g: 0,
            b: 0,
            cached: false,
            painted: Ghost(
                Picture {
                    magnitudes: Seq::<T>::empty(),
                    mirroring: true,
                    width: 10,
                    r: 255,
                    g: 0,
                    b: 0,
                },
            ),
        }
    }
}

impl<T> Bars<T> {
    /// The frame before the first tick: no magnitudes, mirroring switched
    /// on, full bar width, red, nothing cached.
    pub open spec fn spec_default() -> BarsView<T> {
        BarsView {
            picture: Picture {
                magnitudes: Seq::<T>::empty(),
                mirroring: true,
                width: 10,
                r: 255,
                g: 0,
                b: 0,
            },
            cache: None,
        }
    }

    #[verifier::type_invariant]
    spec fn cache_is_current(&self) -> bool {
        self@.coherent()
    }
}

impl<T: Copy> Bars<T> {
    /// The magnitudes that the next paint pass shows.
    pub fn data(&self) -> (data: &Vec<T>)
        ensures
            data@ == self@.picture.magnitudes,
    {
        &self.data
    }

    /// Whether received magnitudes are mirrored.
    pub fn mirroring(&self) -> (on: bool)
        ensures
            on == self@.picture.mirroring,
    {
        self.mirroring
    }

    /// The bar width, in tenths of the room that each bar has.
    pub fn width(&self) -> (width: u8)
        ensures
            width == self@.picture.width,
    {
        self.width
    }

    /// The colour of the bars: red, green, blue.
    pub fn color(&self) -> (rgb: (u8, u8, u8))
        ensures
            rgb == (self@.picture.r, self@.picture.g, self@.picture.b),
    {
        (self.r, self.g, self.b)
    }

    /// Whether the rasterization cache holds a picture.
    pub fn is_cached(&self) -> (cached: bool)
        ensures
            cached == (self@.cache is Some),
            self@.coherent(),
    {
        proof {
            use_type_invariant(self);
        }
        self.cached
    }

    /// One tick of the render poller: the cache is emptied, whatever it
    /// held, and the magnitudes just received become the frame's content,
    /// mirrored where mirroring is switched on.
    pub fn update(&mut self, received: Vec<T>)
        ensures
            final(self)@ == old(self)@.ticked(received@),
    {
        self.cached = false;
        if self.mirroring {
            self.data = mirror(&received);
        } else {
            self.data = received;
        }
    }

    /// Switches mirroring on or off. It takes effect with the next tick; the
    /// cache is emptied at once.
    pub fn set_mirroring(&mut self, mirroring: bool)
        ensures
            final(self)@ == old(self)@.after(FrameOp::Mirroring(mirroring)),
    {
        self.cached = false;
        self.mirroring = mirroring;
    }

    /// Sets the bar width, in tenths of the room that each bar has, and
    /// empties the cache.
    pub fn set_width(&mut self, width: u8)
        ensures
            final(self)@ == old(self)@.after(FrameOp::Width(width)),
    {
        self.cached = false;
        self.width = width;
    }

    /// Sets the colour of the bars and empties the cache.
    pub fn set_color(&mut self, r: u8, g: u8, b: u8)
        ensures
            final(self)@ == old(self)@.after(FrameOp::Color(r, g, b)),
    {
        self.cached = false;
        self.r = r;
        self.g = g;
        self.b = b;
    }

    /// A paint pass: tells whether the picture has to be rasterized anew,
    /// which is the case exactly while the cache is empty. Afterwards the
    /// cache holds the current picture.
    pub fn draw(&mut self) -> (rasterize: bool)
        ensures
            rasterize == (old(self)@.cache is None),
            final(self)@ == old(self)@.painted(),
            final(self)@.cache == Some(old(self)@.picture),
    {
        proof {
            use_type_invariant(&*self);
        }
        let rasterize = !self.cached;
        if rasterize {
            self.painted = Ghost(self@.picture);
            self.cached = true;
        }
        rasterize
    }
}

} // verus!
