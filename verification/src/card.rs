//! Cards, their faces, and the text that each renders to.

use vstd::prelude::*;

verus! {

/// The prices of a card.
#[derive(Clone, Copy, Debug, PartialEq, Eq, Structural)]
pub struct CardPrices {
    /// The price in euros, carried as the bit pattern of a binary64
    /// floating-point number; absent where the card has no such price.
    pub eur: Option<u64>,
}

/// One printable side of a card with several faces.
#[derive(Debug, PartialEq, Eq)]
pub struct CardFace {
    pub name: String,
    pub type_line: String,
    pub oracle_text: String,
    pub mana_cost: String,
    pub power: Option<String>,
    pub toughness: Option<String>,
}

/// The mathematical content of a [`CardFace`].
pub struct FaceView {
    pub name: Seq<char>,
    pub type_line: Seq<char>,
    pub oracle_text: Seq<char>,
    pub mana_cost: Seq<char>,
    pub power: Option<Seq<char>>,
    pub toughness: Option<Seq<char>>,
}

impl View for CardFace {
    type V = FaceView;

    open spec fn view(&self) -> FaceView {
        FaceView {
            name: self.name@,
            type_line: self.type_line@,
            oracle_text: self.oracle_text@,
            mana_cost: self.mana_cost@,
            power: self.power.deep_view(),
            toughness: self.toughness.deep_view(),
        }
    }
}

impl DeepView for CardFace {
    type V = FaceView;

    open spec fn deep_view(&self) -> FaceView {
        self@
    }
}

/// One search result.
#[derive(Debug, PartialEq, Eq)]
pub struct Card {
    pub mana_cost: String,
    pub name: String,
    pub type_line: String,
    /// The tag that selects how the card is rendered.
    pub layout: String,
    pub card_faces: Option<Vec<CardFace>>,
    pub oracle_text: String,
    pub prices: CardPrices,
    pub power: Option<String>,
    pub toughness: Option<String>,
}

/// The mathematical content of a [`Card`].
pub struct CardView {
    pub mana_cost: Seq<char>,
    pub name: Seq<char>,
    pub type_line: Seq<char>,
    pub layout: Seq<char>,
    pub card_faces: Option<Seq<FaceView>>,
    pub oracle_text: Seq<char>,
    pub prices: CardPrices,
    pub power: Option<Seq<char>>,
    pub toughness: Option<Seq<char>>,
}

impl View for Card {
    type V = CardView;

    open spec fn view(&self) -> CardView {
        CardView {
            mana_cost: self.mana_cost@,
            name: self.name@,
            type_line: self.type_line@,
            layout: self.layout@,
            card_faces: self.card_faces.deep_view(),
            oracle_text: self.oracle_text@,
            prices: self.prices,
            power: self.power.deep_view(),
            toughness: self.toughness.deep_view(),
        }
    }
}

impl DeepView for Card {
    type V = CardView;

    open spec fn deep_view(&self) -> CardView {
        self@
    }
}

/// A card whose layout has several faces came without a usable face list.
#[derive(Clone, Copy, Debug, PartialEq, Eq, Structural)]
pub enum InvariantViolation {
    /// The face list is absent or empty.
    MissingFaces,
}

/// The line that shows power and toughness, with the line break before it:
/// present only where both values are.
pub open spec fn stats_text(power: Option<Seq<char>>, toughness: Option<Seq<char>>) -> Seq<char> {
    if power is Some && toughness is Some {
        "\n"@ + power->0 + "/"@ + toughness->0
    } else {
        Seq::empty()
    }
}

/// The text of one face: name, type line, mana cost and oracle text on a
/// line each, then the power and toughness line if there is one.
pub open spec fn face_text(face: FaceView) -> Seq<char> {
    face.name + "\n"@ + face.type_line + "\n"@ + face.mana_cost + "\n"@ + face.oracle_text
        + stats_text(face.power, face.toughness)
}

/// The text of a list of faces: each face in order, with a blank line
/// between one face and the next, and nothing after the last.
pub open spec fn faces_text(faces: Seq<FaceView>) -> Seq<char>
    decreases faces.len(),
{
    if faces.len() == 0 {
        Seq::empty()
    } else if faces.len() == 1 {
        face_text(faces[0])
    } else {
        faces_text(faces.drop_last()) + "\n\n"@ + face_text(faces.last())
    }
}

/// The structure that a layout tag stands for.
#[derive(Clone, Copy, Debug, PartialEq, Eq, Structural)]
pub enum Layout {
    /// The tag `normal`.
    Normal,
    /// The tag `transform`.
    Transform,
    /// The tag `adventure`.
    Adventure,
    /// The tag `modal_dfc`.
    ModalDoubleFace,
    /// Any other tag; rendered as `Normal` is.
    Other,
}

impl Layout {
    /// Whether a card of this layout has several faces.
    pub open spec fn has_faces(self) -> bool {
        self == Layout::Transform || self == Layout::Adventure || self == Layout::ModalDoubleFace
    }
}

/// The layout that a tag stands for.
pub open spec fn layout_of(tag: Seq<char>) -> Layout {
    if tag == "transform"@ {
        Layout::Transform
    } else if tag == "adventure"@ {
        Layout::Adventure
    } else if tag == "modal_dfc"@ {
        Layout::ModalDoubleFace
    } else if tag == "normal"@ {
        Layout::Normal
    } else {
        Layout::Other
    }
}

/// Whether a layout tag names a card with several faces.
pub open spec fn is_multi_face(tag: Seq<char>) -> bool {
    layout_of(tag).has_faces()
}

/// What a single-faced card shows below its name: type line, mana cost and
/// oracle text on a line each, then the power and toughness line if there is
/// one.
pub open spec fn normal_text(card: CardView) -> Seq<char> {
    card.type_line + "\n"@ + card.mana_cost + "\n"@ + card.oracle_text + stats_text(
        card.power,
        card.toughness,
    )
}

/// Whether a card keeps the rule that a layout with several faces comes with
/// a face list that is not empty.
pub open spec fn has_faces_it_needs(card: CardView) -> bool {
    is_multi_face(card.layout) ==> card.card_faces is Some && card.card_faces->0.len() > 0
}

/// The text of a card: its name on a line, then its faces where the layout
/// has several, else its own lines.
pub open spec fn card_text(card: CardView) -> Seq<char>
    recommends
        has_faces_it_needs(card),
{
    if is_multi_face(card.layout) {
        card.name + "\n"@ + faces_text(card.card_faces->0)
    } else {
        card.name + "\n"@ + normal_text(card)
    }
}

/// Copies an optional text.
pub(crate) fn clone_text(text: &Option<String>) -> (r: Option<String>)
    ensures
        r == *text,
{
    match text {
        Some(s) => Some(s.clone()),
        None => None,
    }
}

/// Appends the power and toughness line to `out` where both are present.
fn write_stats(out: &mut String, power: &Option<String>, toughness: &Option<String>)
    ensures
        final(out)@ == old(out)@ + stats_text(power.deep_view(), toughness.deep_view()),
{
    match (power, toughness) {
        (Some(p), Some(t)) => {
            out.append("\n");
            out.append(p.as_str());
            out.append("/");
            out.append(t.as_str());
        },
        _ => {
        },
    }
}

impl Clone for CardFace {
    fn clone(&self) -> (r: Self)
        ensures
            r == *self,
    {
        CardFace {
            name: self.name.clone(),
            type_line: self.type_line.clone(),
            oracle_text: self.oracle_text.clone(),
            mana_cost: self.mana_cost.clone(),
            power: clone_text(&self.power),
            toughness: clone_text(&self.toughness),
        }
    }
}

impl CardFace {
    /// Appends the text of this face to `out`.
    pub fn write_to(&self, out: &mut String)
        ensures
            final(out)@ == old(out)@ + face_text(self@),
    {
        out.append(self.name.as_str());
        out.append("\n");
        out.append(self.type_line.as_str());
        out.append("\n");
        out.append(self.mana_cost.as_str());
        out.append("\n");
        out.append(self.oracle_text.as_str());
        write_stats(out, &self.power, &self.toughness);
    }

    /// The text of this face.
    pub fn render(&self) -> (r: String)
        ensures
            r@ == face_text(self@),
    {
        let mut r = String::new();
        self.write_to(&mut r);
        r
    }
}

/// Appends the text of each face to `out`, in order, with a blank line
/// between one face and the next.
pub fn write_faces(out: &mut String, faces: &Vec<CardFace>)
    ensures
        final(out)@ == old(out)@ + faces_text(faces.deep_view()),
{
    let ghost all = faces.deep_view();
    let mut i: usize = 0;
    while i < faces.len()
        invariant
            0 <= i <= faces.len(),
            all == faces.deep_view(),
            all.len() == faces.len(),
            out@ == old(out)@ + faces_text(all.take(i as int)),
        decreases faces.len() - i,
    {
        if i > 0 {
            out.append("\n\n");
        }
        faces[i].write_to(out);
        proof {
            let next = all.take(i + 1);
            assert(next.drop_last() =~= all.take(i as int));
            assert(next.last() == faces[i as int]@);
            assert(out@ =~= old(out)@ + faces_text(next));
        }
        i += 1;
    }
    assert(all.take(i as int) =~= all);
}

/// Appends to `out` what a single-faced card shows below its name.
pub fn write_normal(out: &mut String, card: &Card)
    ensures
        final(out)@ == old(out)@ + normal_text(card@),
{
    out.append(card.type_line.as_str());
    out.append("\n");
    out.append(card.mana_cost.as_str());
    out.append("\n");
    out.append(card.oracle_text.as_str());
    write_stats(out, &card.power, &card.toughness);
}

/// Copies a list of faces.
fn clone_faces(faces: &Vec<CardFace>) -> (r: Vec<CardFace>)
    ensures
        r.deep_view() == faces.deep_view(),
        r@ == faces@,
{
    let mut r: Vec<CardFace> = Vec::new();
    let mut i: usize = 0;
    while i < faces.len()
        invariant
            0 <= i <= faces.len(),
            r@ == faces@.take(i as int),
        decreases faces.len() - i,
    {
        r.push(faces[i].clone());
        i += 1;
    }
    r
}

impl Clone for Card {
    fn clone(&self) -> (r: Self)
        ensures
            r@ == self@,
    {
        let card_faces = match &self.card_faces {
            Some(faces) => Some(clone_faces(faces)),
            None => None,
        };
        Card {
            mana_cost: self.mana_cost.clone(),
            name: self.name.clone(),
            type_line: self.type_line.clone(),
            layout: self.layout.clone(),
            card_faces,
            oracle_text: self.oracle_text.clone(),
            prices: self.prices,
            power: clone_text(&self.power),
            toughness: clone_text(&self.toughness),
        }
    }
}

impl Card {
    /// The card's name.
    pub fn get_name(&self) -> (r: String)
        ensures
            r@ == self@.name,
    {
        self.name.clone()
    }

    /// The layout that the card's tag stands for.
    pub fn layout_kind(&self) -> (r: Layout)
        ensures
            r == layout_of(self@.layout),
    {
        let transform = String::from_str("transform");
        let adventure = String::from_str("adventure");
        let modal = String::from_str("modal_dfc");
        let normal = String::from_str("normal");
        if self.layout == transform {
            Layout::Transform
        } else if self.layout == adventure {
            Layout::Adventure
        } else if self.layout == modal {
            Layout::ModalDoubleFace
        } else if self.layout == normal {
            Layout::Normal
        } else {
            Layout::Other
        }
    }

    /// Whether the layout tag names a card with several faces.
    pub fn has_multi_face_layout(&self) -> (r: bool)
        ensures
            r == is_multi_face(self@.layout),
    {
        match self.layout_kind() {
            Layout::Transform | Layout::Adventure | Layout::ModalDoubleFace => true,
            Layout::Normal | Layout::Other => false,
        }
    }

    /// Whether the card has the faces that its layout needs: to be asked
    /// where a card is made, so that none is kept that cannot be rendered.
    pub fn is_well_formed(&self) -> (r: bool)
        ensures
            r == has_faces_it_needs(self@),
    {
        if self.has_multi_face_layout() {
            match &self.card_faces {
                Some(faces) => faces.len() > 0,
                None => false,
            }
        } else {
            true
        }
    }

    /// The bit pattern of the price in euros; that of zero where the card has
    /// none.
    pub fn price_eur_bits(&self) -> (r: u64)
        ensures
            r == match self@.prices.eur {
                Some(bits) => bits,
                None => 0,
            },
    {
        match self.prices.eur {
            Some(bits) => bits,
            None => 0,
        }
    }

    /// The text of the card, or the violation where a layout with several
    /// faces has no face to show.
    pub fn render(&self) -> (r: Result<String, InvariantViolation>)
        ensures
            has_faces_it_needs(self@) ==> r is Ok && r.unwrap()@ == card_text(self@),
            !has_faces_it_needs(self@) ==> r == Err::<String, InvariantViolation>(
                InvariantViolation::MissingFaces,
            ),
    {
        let mut out = String::new();
        out.append(self.name.as_str());
        out.append("\n");
        match self.layout_kind() {
            Layout::Transform | Layout::Adventure | Layout::ModalDoubleFace => {
                match &self.card_faces {
                    Some(faces) => {
                        if faces.len() == 0 {
                            return Err(InvariantViolation::MissingFaces);
                        }
                        write_faces(&mut out, faces);
                    },
                    None => {
                        return Err(InvariantViolation::MissingFaces);
                    },
                }
            },
            Layout::Normal | Layout::Other => {
                write_normal(&mut out, self);
            },
        }
        Ok(out)
    }
}

/// Two faces render as the first, a blank line, and the second, with nothing
/// after it.
pub proof fn lemma_two_faces_text(first: FaceView, second: FaceView)
    ensures
        faces_text(seq![first, second]) == face_text(first) + "\n\n"@ + face_text(second),
        faces_text(seq![first]) == face_text(first),
{
    let both = seq![first, second];
    assert(both.drop_last() =~= seq![first]);
    assert(faces_text(both.drop_last()) == face_text(first));
}

/// A card whose layout has a single face always renders, and to the same
/// text whatever its face list holds, absent or not.
pub proof fn lemma_single_face_ignores_faces(card: CardView, faces: Option<Seq<FaceView>>)
    requires
        !is_multi_face(card.layout),
    ensures
        has_faces_it_needs(card),
        has_faces_it_needs(CardView { card_faces: faces, ..card }),
        card_text(CardView { card_faces: faces, ..card }) == card_text(card),
{
}

/// A card whose layout has several faces and whose face list is absent
/// breaks the rule, so that rendering it is a violation and no text.
pub proof fn lemma_multi_face_needs_faces(card: CardView)
    requires
        is_multi_face(card.layout),
        card.card_faces is None,
    ensures
        !has_faces_it_needs(card),
{
}

/// Where power or toughness is missing, neither is shown: the face is its
/// four lines and nothing more.
pub proof fn lemma_partial_stats_omitted(face: FaceView)
    requires
        face.power is None || face.toughness is None,
    ensures
        stats_text(face.power, face.toughness) == Seq::<char>::empty(),
        face_text(face) == face.name + "\n"@ + face.type_line + "\n"@ + face.mana_cost + "\n"@
            + face.oracle_text,
{
    assert(face_text(face) =~= face.name + "\n"@ + face.type_line + "\n"@ + face.mana_cost
        + "\n"@ + face.oracle_text);
}

} // verus!
